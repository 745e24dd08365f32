//! Validation errors of a form, looked up by field.
use crate::validation::Report;
use vstd::prelude::*;

verus! {

#[derive(Debug)]
pub struct FormErrors(pub Report);

/// The messages of the entries whose path is `path`, in report order.
pub open spec fn messages_for(entries: Seq<(Seq<char>, Seq<char>)>, path: Seq<char>) -> Seq<
    Seq<char>,
>
    decreases entries.len(),
{
    if entries.len() == 0 {
        Seq::empty()
    } else if entries.last().0 == path {
        messages_for(entries.drop_last(), path).push(entries.last().1)
    } else {
        messages_for(entries.drop_last(), path)
    }
}

pub open spec fn strings_view(v: Seq<String>) -> Seq<Seq<char>> {
    v.map_values(|s: String| s@)
}

impl FormErrors {
    /// The messages reported for the field at `target_path`.
    pub fn filter(&self, target_path: &str) -> (r: Vec<String>)
        ensures
            strings_view(r@) == messages_for(self.0@, target_path@),
    {
        let mut r: Vec<String> = Vec::new();
        let target = target_path.to_string();
        let mut i: usize = 0;
        while i < self.0.errors.len()
            invariant
                i <= self.0.errors@.len(),
                target@ == target_path@,
                strings_view(r@) == messages_for(self.0@.take(i as int), target_path@),
            decreases self.0.errors@.len() - i,
        {
            let (path, message) = &self.0.errors[i];
            proof {
                assert(self.0@.take(i + 1).drop_last() =~= self.0@.take(i as int));
            }
            if path.eq(&target) {
                r.push(message.clone());
                assert(strings_view(r@) =~= messages_for(self.0@.take(i as int), target_path@).push(
                    message@,
                ));
            }
            i = i + 1;
        }
        assert(self.0@.take(i as int) =~= self.0@);
        r
    }

    pub fn from(report: Report) -> (r: FormErrors)
        ensures
            r.0@ == report@,
    {
        FormErrors(report)
    }

    /// No errors at all.
    pub fn default() -> (r: FormErrors)
        ensures
            r.0@.len() == 0,
    {
        FormErrors(Report::new())
    }
}

} // verus!

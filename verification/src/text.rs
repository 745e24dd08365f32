use vstd::prelude::*;

verus! {

broadcast use vstd::string::group_string_axioms;

/// The concatenation of two string slices.
pub fn concat2(a: &str, b: &str) -> (r: String)
    ensures
        r@ == a@ + b@,
{
    let s = a.to_string();
    s.concat(b)
}

/// The concatenation of three string slices.
pub fn concat3(a: &str, b: &str, c: &str) -> (r: String)
    ensures
        r@ == a@ + b@ + c@,
{
    let s = a.to_string();
    s.concat(b).concat(c)
}

/// Decimal digit for `n` in `0..10`.
pub open spec fn decimal_digit(n: nat) -> char {
    (48 + n) as char
}

/// Decimal representation of `n` without leading zeros.
pub open spec fn decimal(n: nat) -> Seq<char>
    decreases n,
{
    if n < 10 {
        seq![decimal_digit(n)]
    } else {
        decimal(n / 10).push(decimal_digit(n % 10))
    }
}

/// Formats a port number with `u16`'s `Display`, which writes its decimal
/// representation without leading zeros.
#[verifier::external_body]
fn format_u16(n: u16) -> (s: String)
    ensures
        s@ == decimal(n as nat),
{
    n.to_string()
}

/// The decimal text of a `u16`.
pub fn u16_to_string(n: u16) -> (s: String)
    ensures
        s@ == decimal(n as nat),
{
    format_u16(n)
}

} // verus!

verus! {

/// Formats a count with `usize`'s `Display`, which writes its decimal
/// representation without leading zeros.
#[verifier::external_body]
fn format_usize(n: usize) -> (s: String)
    ensures
        s@ == decimal(n as nat),
{
    n.to_string()
}

/// The decimal text of a `usize`.
pub fn usize_to_string(n: usize) -> (s: String)
    ensures
        s@ == decimal(n as nat),
{
    format_usize(n)
}

} // verus!

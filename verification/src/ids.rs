use vstd::arithmetic::div_mod::{lemma_div_denominator, lemma_fundamental_div_mod};
use vstd::arithmetic::power::pow;
use vstd::prelude::*;

verus! {

/// A 128-bit universally unique identifier, kept as its big-endian integer value.
#[derive(Clone, Copy, Debug, PartialEq, Eq, Structural, Hash)]
pub struct Uuid {
    pub value: u128,
}

/// Lower-case hexadecimal digit for `n` in `0..16`.
pub open spec fn hex_lower(n: int) -> char {
    if n < 10 {
        (48 + n) as char
    } else {
        (87 + n) as char
    }
}

/// The `k`-th hexadecimal digit of `v`, counting from the most significant one.
pub open spec fn nibble(v: u128, k: int) -> int {
    (v as int / pow(16, (31 - k) as nat)) % 16
}

/// Number of digits that precede position `i` of the hyphenated form.
pub open spec fn digit_index(i: int) -> int {
    i - (if i > 8 { 1int } else { 0 }) - (if i > 13 { 1int } else { 0 }) - (if i > 18 {
        1int
    } else {
        0
    }) - (if i > 23 { 1int } else { 0 })
}

/// The hyphenated lower-case form `xxxxxxxx-xxxx-xxxx-xxxx-xxxxxxxxxxxx` of `v`.
pub open spec fn uuid_hyphenated(v: u128) -> Seq<char> {
    Seq::new(
        36,
        |i: int|
            if i == 8 || i == 13 || i == 18 || i == 23 {
                '-'
            } else {
                hex_lower(nibble(v, digit_index(i)))
            },
    )
}

/// Formats a UUID with `uuid::Uuid`'s `Display`, which writes the hyphenated
/// lower-case form of the big-endian value. The contract states that form.
#[verifier::external_body]
fn format_hyphenated(v: u128) -> (s: String)
    ensures
        s@ == uuid_hyphenated(v),
{
    ::uuid::Uuid::from_u128(v).hyphenated().to_string()
}

/// A fresh random identifier from `uuid::Uuid::new_v4`. The value is random;
/// the contract states only the version (4) and variant (RFC 4122) bits that
/// the outside function always sets.
#[verifier::external_body]
fn random_v4() -> (v: u128)
    ensures
        (v >> 76u128) & 0xfu128 == 4,
        (v >> 62u128) & 0x3u128 == 2,
{
    ::uuid::Uuid::new_v4().as_u128()
}

impl Uuid {
    pub fn from_u128(value: u128) -> (u: Uuid)
        ensures
            u.value == value,
    {
        Uuid { value }
    }

    pub fn as_u128(&self) -> (v: u128)
        ensures
            v == self.value,
    {
        self.value
    }

    /// A new random version 4 identifier.
    pub fn new_v4() -> (u: Uuid)
        ensures
            (u.value >> 76u128) & 0xfu128 == 4,
            (u.value >> 62u128) & 0x3u128 == 2,
    {
        Uuid { value: random_v4() }
    }

    /// The hyphenated lower-case text form, as `Display` writes it.
    pub fn to_string(&self) -> (s: String)
        ensures
            s@ == uuid_hyphenated(self.value),
            s@.len() == 36,
    {
        format_hyphenated(self.value)
    }
}

/// The `j`-th base-16 digit of `v`, counting from the least significant one.
pub open spec fn digit(v: int, j: nat) -> int {
    (v / pow(16, j)) % 16
}

/// A number below `16^n` is determined by its `n` lowest base-16 digits.
proof fn lemma_digits_determine(v: int, w: int, n: nat)
    requires
        0 <= v < pow(16, n),
        0 <= w < pow(16, n),
        forall|j: nat| j < n ==> #[trigger] digit(v, j) == digit(w, j),
    ensures
        v == w,
    decreases n,
{
    reveal(pow);
    if n == 0 {
        assert(pow(16, 0) == 1);
    } else {
        let p = pow(16, (n - 1) as nat);
        assert(pow(16, n) == 16 * p);
        lemma_fundamental_div_mod(v, 16);
        lemma_fundamental_div_mod(w, 16);
        assert(v / 16 < p) by (nonlinear_arith)
            requires
                v == 16 * (v / 16) + v % 16,
                0 <= v % 16,
                v < 16 * p,
        ;
        assert(w / 16 < p) by (nonlinear_arith)
            requires
                w == 16 * (w / 16) + w % 16,
                0 <= w % 16,
                w < 16 * p,
        ;
        assert(0 <= v / 16);
        assert(0 <= w / 16);
        assert forall|j: nat| j < (n - 1) as nat implies #[trigger] digit(v / 16, j) == digit(
            w / 16,
            j,
        ) by {
            vstd::arithmetic::power::lemma_pow_positive(16, j);
            lemma_div_denominator(v, 16, pow(16, j));
            lemma_div_denominator(w, 16, pow(16, j));
            assert(pow(16, (j + 1) as nat) == 16 * pow(16, j));
            assert(digit(v, (j + 1) as nat) == digit(w, (j + 1) as nat));
        }
        lemma_digits_determine(v / 16, w / 16, (n - 1) as nat);
        assert(digit(v, 0) == digit(w, 0));
        assert(pow(16, 0) == 1);
        assert(v / 1 == v);
        assert(w / 1 == w);
    }
}

/// Position of the `k`-th digit in the hyphenated form.
pub open spec fn digit_position(k: int) -> int {
    k + (if k >= 8 { 1int } else { 0 }) + (if k >= 12 { 1int } else { 0 }) + (if k >= 16 {
        1int
    } else {
        0
    }) + (if k >= 20 { 1int } else { 0 })
}

/// Different identifiers have different text forms.
pub proof fn lemma_uuid_text_injective(a: u128, b: u128)
    requires
        uuid_hyphenated(a) == uuid_hyphenated(b),
    ensures
        a == b,
{
    assert forall|j: nat| j < 32 implies #[trigger] digit(a as int, j) == digit(b as int, j) by {
        let k = 31 - j;
        let i = digit_position(k);
        assert(digit_index(i) == k);
        assert(0 <= i < 36 && i != 8 && i != 13 && i != 18 && i != 23);
        assert(uuid_hyphenated(a)[i] == hex_lower(nibble(a, digit_index(i))));
        assert(uuid_hyphenated(b)[i] == hex_lower(nibble(b, digit_index(i))));
        assert(uuid_hyphenated(a)[i] == uuid_hyphenated(b)[i]);
        let x = nibble(a, k);
        let y = nibble(b, k);
        vstd::arithmetic::power::lemma_pow_positive(16, (31 - k) as nat);
        assert(digit(a as int, j) == x);
        assert(digit(b as int, j) == y);
        assert(0 <= x < 16);
        assert(0 <= y < 16);
        assert(hex_lower(x) == hex_lower(y));
        assert(x == y);
    }
    reveal_with_fuel(pow, 33);
    assert(pow(16, 32) == 0x1_0000_0000_0000_0000_0000_0000_0000_0000int);
    lemma_digits_determine(a as int, b as int, 32);
}

} // verus!

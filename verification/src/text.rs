//! Decimal rendering of integers, used for identifiers and verdict reasons.

use vstd::prelude::*;
use vstd::string::StringExecFns;

verus! {

/// The single decimal digit character sequence for `d` (0 through 9).
pub open spec fn spec_digit(d: int) -> Seq<char> {
    if d == 0 {
        "0"@
    } else if d == 1 {
        "1"@
    } else if d == 2 {
        "2"@
    } else if d == 3 {
        "3"@
    } else if d == 4 {
        "4"@
    } else if d == 5 {
        "5"@
    } else if d == 6 {
        "6"@
    } else if d == 7 {
        "7"@
    } else if d == 8 {
        "8"@
    } else {
        "9"@
    }
}

/// The usual decimal rendering of `n`, most significant digit first and
/// without leading zeroes (`0` renders as `"0"`).
pub open spec fn spec_decimal(n: int) -> Seq<char>
    decreases n,
{
    if n < 10 {
        spec_digit(n)
    } else {
        spec_decimal(n / 10) + spec_digit(n % 10)
    }
}

/// The digits of `s` from its last element down to index `j`, rendered as
/// characters.  `s` holds a number's digits least significant first, so this
/// is the tail of the printed form.
spec fn digits_from(s: Seq<u8>, j: int) -> Seq<char>
    decreases s.len() - j,
{
    if j < 0 || j >= s.len() {
        Seq::empty()
    } else {
        digits_from(s, j + 1) + spec_digit(s[j] as int)
    }
}

proof fn lemma_digits_from_push(s: Seq<u8>, d: u8, j: int)
    requires
        0 <= j <= s.len(),
    ensures
        digits_from(s.push(d), j) == spec_digit(d as int) + digits_from(s, j),
    decreases s.len() - j,
{
    if j == s.len() {
        assert(digits_from(s.push(d), j + 1) == Seq::<char>::empty());
        assert(digits_from(s, j) == Seq::<char>::empty());
        assert(digits_from(s.push(d), j) == digits_from(s.push(d), j + 1) + spec_digit(
            s.push(d)[j] as int,
        ));
        assert(digits_from(s.push(d), j) =~= spec_digit(d as int) + digits_from(s, j));
    } else {
        lemma_digits_from_push(s, d, j + 1);
        assert(s.push(d)[j] == s[j]);
        assert(digits_from(s.push(d), j) =~= spec_digit(d as int) + digits_from(s, j));
    }
}

/// Renders a digit value (0 through 9) as a string slice.
fn digit_str(d: u64) -> (r: &'static str)
    requires
        d < 10,
    ensures
        r@ == spec_digit(d as int),
{
    if d == 0 {
        "0"
    } else if d == 1 {
        "1"
    } else if d == 2 {
        "2"
    } else if d == 3 {
        "3"
    } else if d == 4 {
        "4"
    } else if d == 5 {
        "5"
    } else if d == 6 {
        "6"
    } else if d == 7 {
        "7"
    } else if d == 8 {
        "8"
    } else {
        "9"
    }
}

/// What `str::to_uppercase` returns for a given text.  The result is a
/// function of the characters alone, so it can be named even though
/// writing it out would take the whole Unicode case table.
pub uninterp spec fn upper_of(s: Seq<char>) -> Seq<char>;

/// Relies on `str::to_uppercase`: the uppercased text, a function of the
/// characters alone.
#[verifier::external_body]
pub(crate) fn to_upper(s: &str) -> (r: String)
    ensures
        r@ == upper_of(s@),
{
    s.to_uppercase()
}

/// Renders `n` in decimal.
pub fn u64_to_string(n: u64) -> (r: String)
    ensures
        r@ == spec_decimal(n as int),
{
    let mut digits: Vec<u8> = Vec::new();
    let mut m: u64 = n;
    loop
        invariant_except_break
            digits@.len() == 0 ==> m == n,
            digits@.len() > 0 ==> m > 0 && spec_decimal(n as int) == spec_decimal(m as int)
                + digits_from(digits@, 0),
        invariant
            forall|k: int| 0 <= k < digits@.len() ==> digits@[k] < 10,
        ensures
            digits@.len() > 0,
            spec_decimal(n as int) == digits_from(digits@, 0),
            forall|k: int| 0 <= k < digits@.len() ==> digits@[k] < 10,
        decreases m,
    {
        let ghost pre = digits@;
        let d = m % 10;
        digits.push(d as u8);
        proof {
            lemma_digits_from_push(pre, d as u8, 0);
            if pre.len() == 0 {
                assert(spec_digit(d as int) + digits_from(pre, 0) =~= spec_digit(d as int));
            }
        }
        m = m / 10;
        if m == 0 {
            break ;
        }
    }
    let mut r = String::new();
    let mut j: usize = digits.len();
    while j > 0
        invariant
            j <= digits@.len(),
            forall|k: int| 0 <= k < digits@.len() ==> digits@[k] < 10,
            r@ == digits_from(digits@, j as int),
        decreases j,
    {
        j = j - 1;
        r.append(digit_str(digits[j] as u64));
    }
    r
}

} // verus!

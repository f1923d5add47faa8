//! Decimal rendering of integers and case-insensitive text matching,
//! the two pieces of plain text handling the engine needs everywhere.

use vstd::prelude::*;
use vstd::string::*;

verus! {

/// The decimal digit character for a value below ten.
pub open spec fn digit_char(d: int) -> char {
    if d == 0 {
        '0'
    } else if d == 1 {
        '1'
    } else if d == 2 {
        '2'
    } else if d == 3 {
        '3'
    } else if d == 4 {
        '4'
    } else if d == 5 {
        '5'
    } else if d == 6 {
        '6'
    } else if d == 7 {
        '7'
    } else if d == 8 {
        '8'
    } else {
        '9'
    }
}

/// The usual decimal rendering of a non-negative integer, most significant
/// digit first, with no leading zeros (a lone `'0'` for zero).
pub open spec fn dec_of(n: nat) -> Seq<char>
    decreases n,
{
    if n < 10 {
        seq![digit_char(n as int)]
    } else {
        dec_of(n / 10).push(digit_char((n % 10) as int))
    }
}

/// The one-character string for a decimal digit.
fn digit_str(d: u64) -> (r: &'static str)
    requires
        d < 10,
    ensures
        r@ == seq![digit_char(d as int)],
{
    proof {
        reveal_strlit("0");
        reveal_strlit("1");
        reveal_strlit("2");
        reveal_strlit("3");
        reveal_strlit("4");
        reveal_strlit("5");
        reveal_strlit("6");
        reveal_strlit("7");
        reveal_strlit("8");
        reveal_strlit("9");
    }
    let r = if d == 0 {
        "0"
    } else if d == 1 {
        "1"
    } else if d == 2 {
        "2"
    } else if d == 3 {
        "3"
    } else if d == 4 {
        "4"
    } else if d == 5 {
        "5"
    } else if d == 6 {
        "6"
    } else if d == 7 {
        "7"
    } else if d == 8 {
        "8"
    } else {
        "9"
    };
    proof {
        assert(r@ =~= seq![digit_char(d as int)]);
    }
    r
}

/// Renders an unsigned integer in decimal.
pub fn u64_to_string(n: u64) -> (r: String)
    ensures
        r@ == dec_of(n as nat),
    decreases n,
{
    if n < 10 {
        digit_str(n).to_owned()
    } else {
        let mut s = u64_to_string(n / 10);
        s.append(digit_str(n % 10));
        proof {
            assert(s@ =~= dec_of(n as nat));
        }
        s
    }
}

/// The decimal rendering of an integer of either sign: a minus sign and
/// the magnitude for negative values, `dec_of` itself otherwise.
pub open spec fn dec_int(n: int) -> Seq<char> {
    if n >= 0 {
        dec_of(n as nat)
    } else {
        "-"@ + dec_of((-n) as nat)
    }
}

/// Renders a signed integer in decimal.
pub fn i32_to_string(n: i32) -> (r: String)
    ensures
        r@ == dec_int(n as int),
{
    if n >= 0 {
        u64_to_string(n as u64)
    } else {
        let mag: u64 = (-(n as i64)) as u64;
        let mut s = String::from_str("-");
        let digits = u64_to_string(mag);
        s.append(digits.as_str());
        s
    }
}

/// The UTF-8 encoding of a character sequence is at most four bytes per
/// character (and at least one).
pub proof fn lemma_encode_utf8_len(s: Seq<char>)
    ensures
        s.len() <= vstd::utf8::encode_utf8(s).len() <= 4 * s.len(),
    decreases s.len(),
{
    if s.len() > 0 {
        lemma_encode_utf8_len(s.drop_first());
    }
}

/// Whether `c` matches the lowercase pattern character `p`, ignoring ASCII
/// case: either they are equal, or `p` is an ASCII lowercase letter and `c`
/// is its uppercase form.
pub open spec fn ci_char_eq(c: char, p: char) -> bool {
    c == p || (97 <= p as u32 <= 122 && c as u32 == p as u32 - 32)
}

/// Whether `t` matches the lowercase pattern `p` ignoring ASCII case.
pub open spec fn matches_ci(t: Seq<char>, p: Seq<char>) -> bool {
    t.len() == p.len() && forall|i: int| 0 <= i < t.len() ==> ci_char_eq(t[i], p[i])
}

/// Case-insensitive comparison of `tag` against the lowercase pattern `pat`.
pub fn str_matches_ci(tag: &str, pat: &str) -> (r: bool)
    ensures
        r == matches_ci(tag@, pat@),
{
    let n = tag.unicode_len();
    if n != pat.unicode_len() {
        return false;
    }
    let mut i: usize = 0;
    while i < n
        invariant
            0 <= i <= n,
            n == tag@.len(),
            n == pat@.len(),
            forall|j: int| 0 <= j < i ==> ci_char_eq(tag@[j], pat@[j]),
        decreases n - i,
    {
        let c = tag.get_char(i);
        let p = pat.get_char(i);
        let cu = c as u32;
        let pu = p as u32;
        if !(c == p || (97 <= pu && pu <= 122 && cu == pu - 32)) {
            return false;
        }
        i += 1;
    }
    true
}

} // verus!

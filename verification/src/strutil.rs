//! Small string-building helpers shared by the formatters.
use vstd::prelude::*;

use vstd::string::StrSliceExecFns;

verus! {

/// Relies on std's `String::push`: appends exactly the one character.
#[verifier::external_body]
pub fn push_char(s: &mut String, c: char)
    ensures
        final(s)@ == old(s)@.push(c),
{
    s.push(c);
}

/// The decimal digit character for a value below ten.
pub open spec fn spec_digit(n: int) -> char {
    if n == 0 {
        '0'
    } else if n == 1 {
        '1'
    } else if n == 2 {
        '2'
    } else if n == 3 {
        '3'
    } else if n == 4 {
        '4'
    } else if n == 5 {
        '5'
    } else if n == 6 {
        '6'
    } else if n == 7 {
        '7'
    } else if n == 8 {
        '8'
    } else {
        '9'
    }
}

/// Decimal rendering of a non-negative integer, most significant digit
/// first, with no leading zeros except for zero itself.
pub open spec fn spec_dec(n: int) -> Seq<char>
    decreases n,
{
    if n < 0 {
        Seq::empty()
    } else if n < 10 {
        seq![spec_digit(n)]
    } else {
        spec_dec(n / 10).push(spec_digit(n % 10))
    }
}

fn digit_char(d: u64) -> (r: char)
    requires
        d < 10,
    ensures
        r == spec_digit(d as int),
{
    if d == 0 {
        '0'
    } else if d == 1 {
        '1'
    } else if d == 2 {
        '2'
    } else if d == 3 {
        '3'
    } else if d == 4 {
        '4'
    } else if d == 5 {
        '5'
    } else if d == 6 {
        '6'
    } else if d == 7 {
        '7'
    } else if d == 8 {
        '8'
    } else {
        '9'
    }
}

/// Append the decimal rendering of `n`.
pub fn push_dec(s: &mut String, n: u64)
    ensures
        final(s)@ == old(s)@ + spec_dec(n as int),
    decreases n,
{
    if n < 10 {
        push_char(s, digit_char(n));
        proof {
            assert(old(s)@.push(spec_digit(n as int)) =~= old(s)@ + seq![spec_digit(n as int)]);
        }
    } else {
        proof {
            assert(n / 10 < n) by (nonlinear_arith)
                requires
                    n >= 10,
            ;
        }
        push_dec(s, n / 10);
        push_char(s, digit_char(n % 10));
        proof {
            assert((old(s)@ + spec_dec(n as int / 10)).push(spec_digit(n as int % 10)) =~= old(s)@
                + spec_dec(n as int / 10).push(spec_digit(n as int % 10)));
        }
    }
}

/// Decimal rendering of `n` as a string.
pub fn u64_to_dec(n: u64) -> (r: String)
    ensures
        r@ == spec_dec(n as int),
{
    let mut s = String::new();
    push_dec(&mut s, n);
    proof {
        assert(Seq::<char>::empty() + spec_dec(n as int) =~= spec_dec(n as int));
    }
    s
}

/// Index of the first newline in `s`, or its length.
pub open spec fn spec_line_cut(s: Seq<char>) -> int
    decreases s.len(),
{
    if s.len() == 0 {
        0
    } else if s[0] == '\n' {
        0
    } else {
        1 + spec_line_cut(s.drop_first())
    }
}

pub proof fn lemma_line_cut_bounds(s: Seq<char>)
    ensures
        0 <= spec_line_cut(s) <= s.len(),
        forall|j: int| 0 <= j < spec_line_cut(s) ==> s[j] != '\n',
        spec_line_cut(s) < s.len() ==> s[spec_line_cut(s)] == '\n',
    decreases s.len(),
{
    if s.len() > 0 && s[0] != '\n' {
        lemma_line_cut_bounds(s.drop_first());
        assert forall|j: int| 0 <= j < spec_line_cut(s) implies s[j] != '\n' by {
            if j > 0 {
                assert(s.drop_first()[j - 1] != '\n');
            }
        }
    }
}

/// The first line of a string: everything before the first newline, with
/// one trailing carriage return removed, as std's `str::lines` yields it.
pub open spec fn spec_first_line(s: Seq<char>) -> Seq<char> {
    let raw = s.take(spec_line_cut(s));
    if raw.len() > 0 && raw.last() == '\r' {
        raw.drop_last()
    } else {
        raw
    }
}

/// First line of a string; the whole string when it has no newline.
pub fn first_line(s: &String) -> (r: String)
    ensures
        r@ == spec_first_line(s@),
{
    let st: &str = s.as_str();
    let n = st.unicode_len();
    let mut cut: usize = 0;
    proof {
        lemma_line_cut_bounds(s@);
    }
    while cut < n && st.get_char(cut) != '\n'
        invariant
            0 <= cut <= n,
            n == s@.len(),
            st@ == s@,
            forall|j: int| 0 <= j < cut ==> s@[j] != '\n',
        decreases n - cut,
    {
        cut = cut + 1;
    }
    proof {
        lemma_line_cut_bounds(s@);
        assert(cut == spec_line_cut(s@)) by {
            if cut < spec_line_cut(s@) {
                assert(s@[cut as int] == '\n');
            }
            if cut > spec_line_cut(s@) {
                assert(s@[spec_line_cut(s@)] == '\n');
            }
        }
    }
    let raw: &str = st.substring_char(0, cut);
    proof {
        assert(raw@ =~= s@.take(cut as int));
    }
    if cut > 0 && raw.get_char(cut - 1) == '\r' {
        let trimmed: &str = st.substring_char(0, cut - 1);
        proof {
            assert(trimmed@ =~= s@.take(cut as int).drop_last());
        }
        trimmed.to_owned()
    } else {
        raw.to_owned()
    }
}

} // verus!

//! JSON framing for string-to-string argument objects.
//!
//! Tool-call arguments travel as a JSON object of string fields. The
//! encoder here frames such an object from plain key/value pairs; what it
//! produces is pinned down character by character.
use vstd::prelude::*;

use vstd::string::StrSliceExecFns;
use crate::strutil::push_char;

verus! {

/// The hexadecimal digit character for a value below sixteen.
pub open spec fn spec_hex_digit(n: int) -> char {
    if n < 10 {
        crate::strutil::spec_digit(n)
    } else if n == 10 {
        'a'
    } else if n == 11 {
        'b'
    } else if n == 12 {
        'c'
    } else if n == 13 {
        'd'
    } else if n == 14 {
        'e'
    } else {
        'f'
    }
}

/// JSON escape of one character: quote, backslash and the common control
/// characters by their two-character escapes, other control characters by
/// a `\u00XX` escape, everything else by itself.
pub open spec fn spec_escape_char(c: char) -> Seq<char> {
    if c == '"' {
        seq!['\\', '"']
    } else if c == '\\' {
        seq!['\\', '\\']
    } else if c == '\n' {
        seq!['\\', 'n']
    } else if c == '\r' {
        seq!['\\', 'r']
    } else if c == '\t' {
        seq!['\\', 't']
    } else if (c as u32) < 32 {
        seq!['\\', 'u', '0', '0', spec_hex_digit(c as u32 as int / 16), spec_hex_digit(
            c as u32 as int % 16,
        )]
    } else {
        seq![c]
    }
}

/// JSON escape of a whole string body.
pub open spec fn spec_escaped(s: Seq<char>) -> Seq<char>
    decreases s.len(),
{
    if s.len() == 0 {
        Seq::empty()
    } else {
        spec_escape_char(s[0]) + spec_escaped(s.drop_first())
    }
}

/// A JSON string literal: the escaped body in double quotes.
pub open spec fn spec_json_string(s: Seq<char>) -> Seq<char> {
    seq!['"'] + spec_escaped(s) + seq!['"']
}

/// The members of a JSON object of string fields, comma-separated.
pub open spec fn spec_json_members(pairs: Seq<(Seq<char>, Seq<char>)>) -> Seq<char>
    decreases pairs.len(),
{
    if pairs.len() == 0 {
        Seq::empty()
    } else {
        let member = spec_json_string(pairs[0].0) + seq![':'] + spec_json_string(pairs[0].1);
        if pairs.len() == 1 {
            member
        } else {
            member + seq![','] + spec_json_members(pairs.drop_first())
        }
    }
}

/// A JSON object of string fields, in the order the pairs are given.
pub open spec fn spec_json_object(pairs: Seq<(Seq<char>, Seq<char>)>) -> Seq<char> {
    seq!['{'] + spec_json_members(pairs) + seq!['}']
}

pub proof fn lemma_escaped_push(s: Seq<char>, c: char)
    ensures
        spec_escaped(s.push(c)) == spec_escaped(s) + spec_escape_char(c),
    decreases s.len(),
{
    if s.len() == 0 {
        assert(s.push(c)[0] == c);
        assert(s.push(c).drop_first() =~= Seq::<char>::empty());
        assert(spec_escaped(Seq::<char>::empty()) == Seq::<char>::empty());
        assert(spec_escape_char(c) + Seq::<char>::empty() =~= spec_escape_char(c));
        assert(spec_escaped(s) + spec_escape_char(c) =~= spec_escape_char(c));
    } else {
        assert(s.push(c)[0] == s[0]);
        assert(s.push(c).drop_first() =~= s.drop_first().push(c));
        lemma_escaped_push(s.drop_first(), c);
        assert(spec_escape_char(s[0]) + (spec_escaped(s.drop_first()) + spec_escape_char(c))
            =~= (spec_escape_char(s[0]) + spec_escaped(s.drop_first())) + spec_escape_char(c));
    }
}

fn hex_digit_char(n: u32) -> (r: char)
    requires
        n < 16,
    ensures
        r == spec_hex_digit(n as int),
{
    if n == 0 {
        '0'
    } else if n == 1 {
        '1'
    } else if n == 2 {
        '2'
    } else if n == 3 {
        '3'
    } else if n == 4 {
        '4'
    } else if n == 5 {
        '5'
    } else if n == 6 {
        '6'
    } else if n == 7 {
        '7'
    } else if n == 8 {
        '8'
    } else if n == 9 {
        '9'
    } else if n == 10 {
        'a'
    } else if n == 11 {
        'b'
    } else if n == 12 {
        'c'
    } else if n == 13 {
        'd'
    } else if n == 14 {
        'e'
    } else {
        'f'
    }
}

/// Append the JSON escape of one character.
fn push_escaped_char(out: &mut String, c: char)
    ensures
        final(out)@ == old(out)@ + spec_escape_char(c),
{
    if c == '"' {
        push_char(out, '\\');
        push_char(out, '"');
        proof {
            assert(old(out)@.push('\\').push('"') =~= old(out)@ + spec_escape_char('"'));
        }
    } else if c == '\\' {
        push_char(out, '\\');
        push_char(out, '\\');
        proof {
            assert(old(out)@.push('\\').push('\\') =~= old(out)@ + spec_escape_char('\\'));
        }
    } else if c == '\n' {
        push_char(out, '\\');
        push_char(out, 'n');
        proof {
            assert(old(out)@.push('\\').push('n') =~= old(out)@ + spec_escape_char('\n'));
        }
    } else if c == '\r' {
        push_char(out, '\\');
        push_char(out, 'r');
        proof {
            assert(old(out)@.push('\\').push('r') =~= old(out)@ + spec_escape_char('\r'));
        }
    } else if c == '\t' {
        push_char(out, '\\');
        push_char(out, 't');
        proof {
            assert(old(out)@.push('\\').push('t') =~= old(out)@ + spec_escape_char('\t'));
        }
    } else if (c as u32) < 32 {
        let code = c as u32;
        push_char(out, '\\');
        push_char(out, 'u');
        push_char(out, '0');
        push_char(out, '0');
        push_char(out, hex_digit_char(code / 16));
        push_char(out, hex_digit_char(code % 16));
        proof {
            assert(old(out)@.push('\\').push('u').push('0').push('0').push(
                spec_hex_digit(c as u32 as int / 16),
            ).push(spec_hex_digit(c as u32 as int % 16)) =~= old(out)@ + spec_escape_char(c));
        }
    } else {
        push_char(out, c);
        proof {
            assert(old(out)@.push(c) =~= old(out)@ + spec_escape_char(c));
        }
    }
}

/// Append a JSON string literal for `s`.
fn push_json_string(out: &mut String, s: &str)
    ensures
        final(out)@ == old(out)@ + spec_json_string(s@),
{
    push_char(out, '"');
    let n = s.unicode_len();
    let mut i: usize = 0;
    proof {
        assert(spec_escaped(s@.take(0)) =~= Seq::<char>::empty());
        assert(old(out)@.push('"') =~= old(out)@ + seq!['"'] + spec_escaped(s@.take(0)));
    }
    while i < n
        invariant
            0 <= i <= n,
            n == s@.len(),
            out@ == old(out)@ + seq!['"'] + spec_escaped(s@.take(i as int)),
        decreases n - i,
    {
        let c = s.get_char(i);
        let ghost pre = out@;
        push_escaped_char(out, c);
        proof {
            assert(s@.take(i as int + 1) =~= s@.take(i as int).push(s@[i as int]));
            lemma_escaped_push(s@.take(i as int), s@[i as int]);
            assert((old(out)@ + seq!['"'] + spec_escaped(s@.take(i as int))) + spec_escape_char(
                s@[i as int],
            ) =~= old(out)@ + seq!['"'] + (spec_escaped(s@.take(i as int)) + spec_escape_char(
                s@[i as int],
            )));
        }
        i = i + 1;
    }
    push_char(out, '"');
    proof {
        assert(s@.take(n as int) =~= s@);
        assert((old(out)@ + seq!['"'] + spec_escaped(s@)).push('"') =~= old(out)@
            + spec_json_string(s@));
    }
}

/// A JSON object of string fields built from key/value pairs, keys in the
/// order given.
pub fn json_object_of_pairs(pairs: &Vec<(String, String)>) -> (r: String)
    ensures
        r@ == spec_json_object(pairs@.map_values(|p: (String, String)| (p.0@, p.1@))),
{
    let ghost model = pairs@.map_values(|p: (String, String)| (p.0@, p.1@));
    let mut out = String::new();
    push_char(&mut out, '{');
    proof {
        assert(Seq::<char>::empty().push('{') =~= seq!['{']);
    }
    let mut i: usize = 0;
    while i < pairs.len()
        invariant
            0 <= i <= pairs@.len(),
            model == pairs@.map_values(|p: (String, String)| (p.0@, p.1@)),
            out@ == seq!['{'] + spec_json_members(model.take(i as int)),
            i == 0 ==> out@ == seq!['{'],
        decreases pairs@.len() - i,
    {
        if i > 0 {
            push_char(&mut out, ',');
        }
        let ghost pre = out@;
        push_json_string(&mut out, pairs[i].0.as_str());
        push_char(&mut out, ':');
        push_json_string(&mut out, pairs[i].1.as_str());
        proof {
            assert(model.take(i as int + 1) =~= model.take(i as int).push(model[i as int]));
            lemma_json_members_push(model.take(i as int), model[i as int]);
            let member = spec_json_string(model[i as int].0) + seq![':'] + spec_json_string(
                model[i as int].1,
            );
            if i == 0 {
                assert(out@ =~= seq!['{'] + member);
                assert(spec_json_members(model.take(1)) == member) by {
                    assert(model.take(1)[0] == model[0]);
                }
            } else {
                assert(out@ =~= seq!['{'] + (spec_json_members(model.take(i as int)) + seq![',']
                    + member));
            }
        }
        i = i + 1;
    }
    push_char(&mut out, '}');
    proof {
        assert(model.take(model.len() as int) =~= model);
        assert((seq!['{'] + spec_json_members(model)).push('}') =~= spec_json_object(model));
    }
    out
}

pub proof fn lemma_json_members_push(s: Seq<(Seq<char>, Seq<char>)>, x: (Seq<char>, Seq<char>))
    ensures
        s.len() > 0 ==> spec_json_members(s.push(x)) == spec_json_members(s) + seq![','] + (
        spec_json_string(x.0) + seq![':'] + spec_json_string(x.1)),
        s.len() == 0 ==> spec_json_members(s.push(x)) == spec_json_string(x.0) + seq![':']
            + spec_json_string(x.1),
    decreases s.len(),
{
    let member = spec_json_string(x.0) + seq![':'] + spec_json_string(x.1);
    if s.len() == 0 {
        assert(s.push(x)[0] == x);
        assert(s.push(x).len() == 1);
    } else {
        assert(s.push(x)[0] == s[0]);
        assert(s.push(x).drop_first() =~= s.drop_first().push(x));
        lemma_json_members_push(s.drop_first(), x);
        let m0 = spec_json_string(s[0].0) + seq![':'] + spec_json_string(s[0].1);
        if s.len() == 1 {
            assert(s.drop_first().len() == 0);
            assert(spec_json_members(s.push(x)) == m0 + seq![','] + spec_json_members(
                s.drop_first().push(x),
            ));
            assert(spec_json_members(s) == m0);
        } else {
            assert(m0 + seq![','] + (spec_json_members(s.drop_first()) + seq![','] + member)
                =~= (m0 + seq![','] + spec_json_members(s.drop_first())) + seq![','] + member);
        }
    }
}

} // verus!

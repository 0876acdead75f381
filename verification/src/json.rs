//! The JSON-object blob that carries the extensions of an envelope in the
//! full-envelope shape: string escaping and object serialization, specified
//! character by character.

use vstd::prelude::*;
use crate::envelope::{ext_pairs_model, ExtVal, ExtensionValue};
use crate::num::{bool_text, digit_char, i64_text, push_i64_text};
use crate::text::chars_to_string;

verus! {

/// The character for a single hexadecimal digit, lower case.
pub open spec fn hex_digit(d: int) -> char
    recommends
        0 <= d < 16,
{
    if d < 10 {
        digit_char(d)
    } else if d == 10 {
        'a'
    } else if d == 11 {
        'b'
    } else if d == 12 {
        'c'
    } else if d == 13 {
        'd'
    } else if d == 14 {
        'e'
    } else {
        'f'
    }
}

/// How one character appears inside a JSON string literal: quote and
/// backslash are escaped, the common control characters get their short
/// forms, any other control character its `\u00..` form, and everything
/// else stands as itself.
pub open spec fn json_escape_char(c: char) -> Seq<char> {
    if c == '"' {
        seq!['\\', '"']
    } else if c == '\\' {
        seq!['\\', '\\']
    } else if c == '\n' {
        seq!['\\', 'n']
    } else if c == '\r' {
        seq!['\\', 'r']
    } else if c == '\t' {
        seq!['\\', 't']
    } else if (c as u32) < 32 {
        seq!['\\', 'u', '0', '0', hex_digit(c as u32 as int / 16), hex_digit(c as u32 as int % 16)]
    } else {
        seq![c]
    }
}

/// A piece of text with every character escaped for a JSON string literal.
pub open spec fn json_escaped(s: Seq<char>) -> Seq<char>
    decreases s.len(),
{
    if s.len() == 0 {
        Seq::empty()
    } else {
        json_escaped(s.drop_last()) + json_escape_char(s.last())
    }
}

/// A JSON string literal: quotes around the escaped text.
pub open spec fn json_string_text(s: Seq<char>) -> Seq<char> {
    seq!['"'] + json_escaped(s) + seq!['"']
}

/// The JSON form of one extension value.
pub open spec fn ext_value_json_text(v: ExtVal) -> Seq<char> {
    match v {
        ExtVal::Boolean(b) => bool_text(b),
        ExtVal::Integer(i) => i64_text(i),
        ExtVal::Text(s) => json_string_text(s),
    }
}

/// One `"name":value` member of the extension object.
pub open spec fn ext_entry_text(name: Seq<char>, v: ExtVal) -> Seq<char> {
    json_string_text(name) + seq![':'] + ext_value_json_text(v)
}

/// The members of the extension object, in sequence order, separated by
/// commas.
pub open spec fn ext_entries_text(pairs: Seq<(Seq<char>, ExtVal)>) -> Seq<char>
    decreases pairs.len(),
{
    if pairs.len() == 0 {
        Seq::empty()
    } else if pairs.len() == 1 {
        ext_entry_text(pairs[0].0, pairs[0].1)
    } else {
        ext_entries_text(pairs.drop_last()) + seq![','] + ext_entry_text(
            pairs.last().0,
            pairs.last().1,
        )
    }
}

/// The whole extension blob: a single JSON object.
pub open spec fn ext_object_text(pairs: Seq<(Seq<char>, ExtVal)>) -> Seq<char> {
    seq!['{'] + ext_entries_text(pairs) + seq!['}']
}

proof fn lemma_json_escaped_step(s: Seq<char>, i: int)
    requires
        0 <= i < s.len(),
    ensures
        json_escaped(s.take(i + 1)) == json_escaped(s.take(i)) + json_escape_char(s[i]),
{
    assert(s.take(i + 1).drop_last() =~= s.take(i));
    assert(s.take(i + 1).last() == s[i]);
}

proof fn lemma_ext_entries_step(pairs: Seq<(Seq<char>, ExtVal)>, i: int)
    requires
        0 <= i < pairs.len(),
    ensures
        i == 0 ==> ext_entries_text(pairs.take(1)) == ext_entry_text(pairs[0].0, pairs[0].1),
        i >= 1 ==> ext_entries_text(pairs.take(i + 1)) == ext_entries_text(pairs.take(i))
            + seq![','] + ext_entry_text(pairs[i].0, pairs[i].1),
{
    let p = pairs.take(i + 1);
    assert(p.drop_last() =~= pairs.take(i));
    assert(p.last() == pairs[i]);
    if i == 0 {
        assert(p[0] == pairs[0]);
    }
}

fn hex_digit_of(d: u32) -> (c: char)
    requires
        d < 16,
    ensures
        c == hex_digit(d as int),
{
    if d == 0 {
        '0'
    } else if d == 1 {
        '1'
    } else if d == 2 {
        '2'
    } else if d == 3 {
        '3'
    } else if d == 4 {
        '4'
    } else if d == 5 {
        '5'
    } else if d == 6 {
        '6'
    } else if d == 7 {
        '7'
    } else if d == 8 {
        '8'
    } else if d == 9 {
        '9'
    } else if d == 10 {
        'a'
    } else if d == 11 {
        'b'
    } else if d == 12 {
        'c'
    } else if d == 13 {
        'd'
    } else if d == 14 {
        'e'
    } else {
        'f'
    }
}

fn push_json_escaped(s: &str, out: &mut Vec<char>)
    ensures
        final(out)@ == old(out)@ + json_escaped(s@),
{
    let n: usize = s.unicode_len();
    proof {
        assert(s@.take(0) =~= Seq::<char>::empty());
        assert(old(out)@ + json_escaped(s@.take(0)) =~= old(out)@);
    }
    let mut i: usize = 0;
    while i < n
        invariant
            i <= n,
            n == s@.len(),
            out@ == old(out)@ + json_escaped(s@.take(i as int)),
        decreases n - i,
    {
        let c: char = s.get_char(i);
        if c == '"' {
            out.push('\\');
            out.push('"');
        } else if c == '\\' {
            out.push('\\');
            out.push('\\');
        } else if c == '\n' {
            out.push('\\');
            out.push('n');
        } else if c == '\r' {
            out.push('\\');
            out.push('r');
        } else if c == '\t' {
            out.push('\\');
            out.push('t');
        } else {
            let u: u32 = c as u32;
            if u < 32 {
                out.push('\\');
                out.push('u');
                out.push('0');
                out.push('0');
                out.push(hex_digit_of(u / 16));
                out.push(hex_digit_of(u % 16));
            } else {
                out.push(c);
            }
        }
        proof {
            lemma_json_escaped_step(s@, i as int);
            assert(out@ =~= old(out)@ + json_escaped(s@.take(i + 1)));
        }
        i = i + 1;
    }
    proof {
        assert(s@.take(n as int) =~= s@);
    }
}

fn push_json_string(s: &str, out: &mut Vec<char>)
    ensures
        final(out)@ == old(out)@ + json_string_text(s@),
{
    out.push('"');
    push_json_escaped(s, out);
    out.push('"');
    assert(out@ =~= old(out)@ + json_string_text(s@));
}

fn push_ext_value(v: &ExtensionValue, out: &mut Vec<char>)
    ensures
        final(out)@ == old(out)@ + ext_value_json_text(v@),
{
    match v {
        ExtensionValue::Boolean(b) => {
            proof {
                reveal_strlit("true");
                reveal_strlit("false");
            }
            if *b {
                out.push('t');
                out.push('r');
                out.push('u');
                out.push('e');
                assert(out@ =~= old(out)@ + bool_text(true));
            } else {
                out.push('f');
                out.push('a');
                out.push('l');
                out.push('s');
                out.push('e');
                assert(out@ =~= old(out)@ + bool_text(false));
            }
        },
        ExtensionValue::Integer(i) => {
            push_i64_text(*i, out);
        },
        ExtensionValue::Text(s) => {
            push_json_string(s.as_str(), out);
        },
    }
}

/// Serialize the extensions of an envelope as a single JSON object, one
/// member per extension, in sequence order.
pub fn extensions_json(exts: &Vec<(String, ExtensionValue)>) -> (r: String)
    ensures
        r@ == ext_object_text(ext_pairs_model(exts@)),
{
    let ghost m: Seq<(Seq<char>, ExtVal)> = ext_pairs_model(exts@);
    let mut out: Vec<char> = Vec::new();
    out.push('{');
    proof {
        assert(m.take(0) =~= Seq::<(Seq<char>, ExtVal)>::empty());
        assert(out@ =~= seq!['{'] + ext_entries_text(m.take(0)));
    }
    let mut i: usize = 0;
    while i < exts.len()
        invariant
            i <= exts.len(),
            m == ext_pairs_model(exts@),
            m.len() == exts@.len(),
            out@ == seq!['{'] + ext_entries_text(m.take(i as int)),
        decreases exts.len() - i,
    {
        let p: &(String, ExtensionValue) = &exts[i];
        if i > 0 {
            out.push(',');
        }
        push_json_string(p.0.as_str(), &mut out);
        out.push(':');
        push_ext_value(&p.1, &mut out);
        proof {
            assert(m[i as int] == (exts@[i as int].0@, exts@[i as int].1@));
            lemma_ext_entries_step(m, i as int);
            assert(out@ =~= seq!['{'] + ext_entries_text(m.take(i + 1)));
        }
        i = i + 1;
    }
    out.push('}');
    proof {
        assert(m.take(exts@.len() as int) =~= m);
        assert(out@ =~= ext_object_text(m));
    }
    chars_to_string(&out)
}

} // verus!

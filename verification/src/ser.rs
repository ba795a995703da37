//! Serialization of [`JsonValue`] to JSON text.
//!
//! [`json_text`] is the text of a value: objects and arrays without any
//! whitespace, object members as `"name":value` joined by commas, strings
//! quoted with `"`, `\` and control characters escaped, numbers and booleans
//! as their literals. [`to_json_string`] produces exactly that text.

use vstd::prelude::*;
use crate::json::{JsonValue, JsonView};
use crate::text::push_char;

verus! {

broadcast use vstd::std_specs::vec::group_vec_axioms;

/// The lowercase hexadecimal digit for a value below sixteen.
pub open spec fn hex_digit(d: nat) -> char {
    if d == 0 {
        '0'
    } else if d == 1 {
        '1'
    } else if d == 2 {
        '2'
    } else if d == 3 {
        '3'
    } else if d == 4 {
        '4'
    } else if d == 5 {
        '5'
    } else if d == 6 {
        '6'
    } else if d == 7 {
        '7'
    } else if d == 8 {
        '8'
    } else if d == 9 {
        '9'
    } else if d == 10 {
        'a'
    } else if d == 11 {
        'b'
    } else if d == 12 {
        'c'
    } else if d == 13 {
        'd'
    } else if d == 14 {
        'e'
    } else {
        'f'
    }
}

/// How one character stands inside a JSON string literal: `"` and `\` get a
/// backslash, the named control characters get their short escapes, any other
/// control character becomes `\u00XX`, and everything else stands as itself.
pub open spec fn escape_char(c: char) -> Seq<char> {
    if c == '"' {
        seq!['\\', '"']
    } else if c == '\\' {
        seq!['\\', '\\']
    } else if c == '\u{8}' {
        seq!['\\', 'b']
    } else if c == '\u{c}' {
        seq!['\\', 'f']
    } else if c == '\n' {
        seq!['\\', 'n']
    } else if c == '\r' {
        seq!['\\', 'r']
    } else if c == '\t' {
        seq!['\\', 't']
    } else if (c as u32) < 32 {
        seq!['\\', 'u', '0', '0', hex_digit((c as u32 / 16) as nat), hex_digit(
            (c as u32 % 16) as nat,
        )]
    } else {
        seq![c]
    }
}

/// The body of a JSON string literal for `s`: each character escaped.
pub open spec fn escaped(s: Seq<char>) -> Seq<char>
    decreases s.len(),
{
    if s.len() == 0 {
        Seq::empty()
    } else {
        escaped(s.drop_last()) + escape_char(s.last())
    }
}

/// The JSON text of a value.
pub open spec fn json_text(v: JsonView) -> Seq<char>
    decreases v,
{
    match v {
        JsonView::Null => "null"@,
        JsonView::Bool(b) => if b {
            "true"@
        } else {
            "false"@
        },
        JsonView::Num(s) => s,
        JsonView::Str(s) => seq!['"'] + escaped(s) + seq!['"'],
        JsonView::Arr(elems) => seq!['['] + json_text_list(elems) + seq![']'],
        JsonView::Obj(pairs) => seq!['{'] + json_text_members(pairs) + seq!['}'],
    }
}

/// The JSON texts of array elements, joined by commas.
pub open spec fn json_text_list(elems: Seq<JsonView>) -> Seq<char>
    decreases elems,
{
    if elems.len() == 0 {
        Seq::empty()
    } else if elems.len() == 1 {
        json_text(elems[0])
    } else {
        json_text_list(elems.drop_last()) + seq![','] + json_text(elems.last())
    }
}

/// The JSON text of one object member: `"name":value`.
pub open spec fn json_text_member(pair: (Seq<char>, JsonView)) -> Seq<char>
    decreases pair,
{
    seq!['"'] + escaped(pair.0) + seq!['"', ':'] + json_text(pair.1)
}

/// The JSON texts of object members, joined by commas.
pub open spec fn json_text_members(pairs: Seq<(Seq<char>, JsonView)>) -> Seq<char>
    decreases pairs,
{
    if pairs.len() == 0 {
        Seq::empty()
    } else if pairs.len() == 1 {
        json_text_member(pairs[0])
    } else {
        json_text_members(pairs.drop_last()) + seq![','] + json_text_member(pairs.last())
    }
}

fn hex_digit_exec(d: u32) -> (c: char)
    requires
        d < 16,
    ensures
        c == hex_digit(d as nat),
{
    match d {
        0 => '0',
        1 => '1',
        2 => '2',
        3 => '3',
        4 => '4',
        5 => '5',
        6 => '6',
        7 => '7',
        8 => '8',
        9 => '9',
        10 => 'a',
        11 => 'b',
        12 => 'c',
        13 => 'd',
        14 => 'e',
        _ => 'f',
    }
}

/// Appends the escape of one character to `out`.
fn write_escaped_char(c: char, out: &mut String)
    ensures
        final(out)@ == old(out)@ + escape_char(c),
{
    if c == '"' {
        push_char(out, '\\');
        push_char(out, '"');
    } else if c == '\\' {
        push_char(out, '\\');
        push_char(out, '\\');
    } else if c == '\u{8}' {
        push_char(out, '\\');
        push_char(out, 'b');
    } else if c == '\u{c}' {
        push_char(out, '\\');
        push_char(out, 'f');
    } else if c == '\n' {
        push_char(out, '\\');
        push_char(out, 'n');
    } else if c == '\r' {
        push_char(out, '\\');
        push_char(out, 'r');
    } else if c == '\t' {
        push_char(out, '\\');
        push_char(out, 't');
    } else if (c as u32) < 32 {
        push_char(out, '\\');
        push_char(out, 'u');
        push_char(out, '0');
        push_char(out, '0');
        push_char(out, hex_digit_exec((c as u32) / 16));
        push_char(out, hex_digit_exec((c as u32) % 16));
    } else {
        push_char(out, c);
    }
}

/// Appends the escaped body of the string literal for `s` to `out`.
fn write_escaped(s: &str, out: &mut String)
    ensures
        final(out)@ == old(out)@ + escaped(s@),
{
    let ghost start = out@;
    let n = s.unicode_len();
    let mut i: usize = 0;
    while i < n
        invariant
            n == s@.len(),
            i <= n,
            out@ == start + escaped(s@.subrange(0, i as int)),
        decreases n - i,
    {
        let c = s.get_char(i);
        write_escaped_char(c, out);
        proof {
            assert(s@.subrange(0, i + 1 as int).drop_last() == s@.subrange(0, i as int));
            assert(s@.subrange(0, i + 1 as int).last() == s@[i as int]);
        }
        i = i + 1;
    }
    proof {
        assert(s@.subrange(0, n as int) == s@);
    }
}

/// Appends the JSON text of `v` to `out`.
fn write_json(v: &JsonValue, out: &mut String)
    ensures
        final(out)@ == old(out)@ + json_text(v@),
    decreases *v,
{
    match v {
        JsonValue::Null => {
            out.append("null");
        },
        JsonValue::Bool(b) => {
            if *b {
                out.append("true");
            } else {
                out.append("false");
            }
        },
        JsonValue::Num(s) => {
            out.append(s.as_str());
        },
        JsonValue::Str(s) => {
            push_char(out, '"');
            write_escaped(s.as_str(), out);
            push_char(out, '"');
        },
        JsonValue::Arr(elems) => {
            push_char(out, '[');
            let ghost velems = crate::json::views_of(elems@);
            let ghost start = out@;
            proof {
                crate::json::lemma_views_of(elems@);
            }
            let n = elems.len();
            let mut i: usize = 0;
            while i < n
                invariant
                    n == elems@.len(),
                    i <= n,
                    v@ == JsonView::Arr(velems),
                    velems.len() == elems@.len(),
                    forall|j: int| 0 <= j < velems.len() ==> velems[j] == elems@[j]@,
                    out@ == start + json_text_list(velems.subrange(0, i as int)),
                    decreases_to!(*v => *elems),
                decreases n - i,
            {
                if i > 0 {
                    push_char(out, ',');
                }
                proof {
                    assert(decreases_to!(*elems => elems[i as int]));
                }
                write_json(&elems[i], out);
                proof {
                    let pref = velems.subrange(0, i + 1 as int);
                    assert(pref.drop_last() == velems.subrange(0, i as int));
                    assert(pref.last() == elems@[i as int]@);
                }
                i = i + 1;
            }
            proof {
                assert(velems.subrange(0, n as int) == velems);
            }
            push_char(out, ']');
        },
        JsonValue::Obj(pairs) => {
            push_char(out, '{');
            let ghost vpairs = crate::json::member_views_of(pairs@);
            let ghost start = out@;
            proof {
                crate::json::lemma_member_views_of(pairs@);
            }
            let n = pairs.len();
            let mut i: usize = 0;
            while i < n
                invariant
                    n == pairs@.len(),
                    i <= n,
                    v@ == JsonView::Obj(vpairs),
                    vpairs.len() == pairs@.len(),
                    forall|j: int| 0 <= j < vpairs.len()
                        ==> vpairs[j] == (pairs@[j].0@, pairs@[j].1@),
                    out@ == start + json_text_members(vpairs.subrange(0, i as int)),
                    decreases_to!(*v => *pairs),
                decreases n - i,
            {
                if i > 0 {
                    push_char(out, ',');
                }
                push_char(out, '"');
                write_escaped(pairs[i].0.as_str(), out);
                push_char(out, '"');
                push_char(out, ':');
                proof {
                    assert(decreases_to!(*pairs => pairs[i as int]));
                    assert(decreases_to!(pairs[i as int] => pairs[i as int].1));
                }
                write_json(&pairs[i].1, out);
                proof {
                    let pref = vpairs.subrange(0, i + 1 as int);
                    assert(pref.drop_last() == vpairs.subrange(0, i as int));
                    assert(pref.last() == (pairs@[i as int].0@, pairs@[i as int].1@));
                    assert(json_text_member(pref.last()) =~= seq!['"'] + escaped(
                        pairs@[i as int].0@,
                    ) + seq!['"'] + seq![':'] + json_text(pairs@[i as int].1@));
                    if i == 0 {
                        assert(json_text_members(pref) == json_text_member(pref[0]));
                        assert(pref[0] == pref.last());
                    } else {
                        assert(json_text_members(pref) == json_text_members(pref.drop_last())
                            + seq![','] + json_text_member(pref.last()));
                    }
                    assert(out@ =~= start + json_text_members(pref));
                }
                i = i + 1;
            }
            proof {
                assert(vpairs.subrange(0, n as int) == vpairs);
            }
            push_char(out, '}');
        },
    }
}

/// The JSON text of `v` as a string.
pub fn to_json_string(v: &JsonValue) -> (r: String)
    ensures
        r@ == json_text(v@),
{
    let mut out = String::new();
    write_json(v, &mut out);
    out
}

} // verus!

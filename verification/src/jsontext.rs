use vstd::prelude::*;
use vstd::string::*;

use crate::jsonval::{
    lemma_view_entries_pointwise, lemma_view_items_pointwise, view_entries, view_items, JsonVal,
    JsonValue,
};

verus! {

// JSON text for a [`JsonValue`]. The rendering context crosses into the
// template engine as JSON source text, so the serialization below is
// part of the request pipeline proper and is verified against the spec
// functions that define the text, character by character.

/// The hexadecimal digit character for `d` (`d < 16`), lower case.
pub open spec fn hex_char(d: nat) -> char {
    if d < 10 {
        ((0x30 + d) as u8) as char
    } else {
        ((0x57 + d) as u8) as char
    }
}

/// How one character appears inside a JSON string literal: quote and
/// backslash are escaped, control characters take the `\u00XX` form,
/// everything else stands for itself.
pub open spec fn esc_char(c: char) -> Seq<char> {
    if c == '"' {
        seq!['\\', '"']
    } else if c == '\\' {
        seq!['\\', '\\']
    } else if (c as nat) < 32 {
        seq!['\\', 'u', '0', '0', hex_char((c as nat) / 16), hex_char((c as nat) % 16)]
    } else {
        seq![c]
    }
}

/// A string's characters, each escaped.
pub open spec fn esc_str(s: Seq<char>) -> Seq<char>
    decreases s,
{
    if s.len() == 0 {
        Seq::empty()
    } else {
        esc_char(s[0]) + esc_str(s.drop_first())
    }
}

/// A JSON string literal: the escaped characters between quotes.
pub open spec fn quoted(s: Seq<char>) -> Seq<char> {
    seq!['"'] + esc_str(s) + seq!['"']
}

/// The JSON text of a value. A number's stored text is emitted
/// verbatim; the rim that builds a `JsonValue` is responsible for
/// storing well-formed JSON number text there.
pub open spec fn json_text(v: JsonVal) -> Seq<char>
    decreases v,
{
    match v {
        JsonVal::Null => "null"@,
        JsonVal::Bool(b) => if b {
            "true"@
        } else {
            "false"@
        },
        JsonVal::Num(s) => s,
        JsonVal::Str(s) => quoted(s),
        JsonVal::Arr(items) => seq!['['] + json_items_text(items) + seq![']'],
        JsonVal::Obj(entries) => seq!['{'] + json_entries_text(entries) + seq!['}'],
    }
}

/// Array elements, comma-separated.
pub open spec fn json_items_text(items: Seq<JsonVal>) -> Seq<char>
    decreases items,
{
    if items.len() == 0 {
        Seq::empty()
    } else if items.len() == 1 {
        json_text(items[0])
    } else {
        json_text(items[0]) + seq![','] + json_items_text(items.drop_first())
    }
}

/// Object members, `"key":value`, comma-separated.
pub open spec fn json_entries_text(entries: Seq<(Seq<char>, JsonVal)>) -> Seq<char>
    decreases entries,
{
    if entries.len() == 0 {
        Seq::empty()
    } else if entries.len() == 1 {
        quoted(entries[0].0) + seq![':'] + json_text(entries[0].1)
    } else {
        quoted(entries[0].0) + seq![':'] + json_text(entries[0].1) + seq![',']
            + json_entries_text(entries.drop_first())
    }
}

proof fn lemma_esc_str_snoc(s: Seq<char>, c: char)
    ensures
        esc_str(s.push(c)) == esc_str(s) + esc_char(c),
    decreases s,
{
    if s.len() == 0 {
        assert(s.push(c).drop_first() =~= Seq::<char>::empty());
        assert(s.push(c)[0] == c);
        assert(esc_str(s.push(c)) =~= esc_char(c) + esc_str(Seq::<char>::empty()));
        assert(esc_str(s.push(c)) =~= esc_char(c));
        assert(esc_str(s) + esc_char(c) =~= esc_char(c));
    } else {
        assert(s.push(c).drop_first() =~= s.drop_first().push(c));
        lemma_esc_str_snoc(s.drop_first(), c);
        assert(esc_str(s.push(c)) =~= esc_str(s) + esc_char(c));
    }
}

proof fn lemma_items_text_snoc(items: Seq<JsonVal>, x: JsonVal)
    ensures
        json_items_text(items.push(x)) == if items.len() == 0 {
            json_text(x)
        } else {
            json_items_text(items) + seq![','] + json_text(x)
        },
    decreases items,
{
    if items.len() == 0 {
        assert(items.push(x)[0] == x);
        assert(json_items_text(items.push(x)) =~= json_text(x));
    } else {
        assert(items.push(x).drop_first() =~= items.drop_first().push(x));
        lemma_items_text_snoc(items.drop_first(), x);
        if items.len() == 1 {
            assert(json_items_text(items.push(x)) =~= json_items_text(items) + seq![',']
                + json_text(x));
        } else {
            assert(json_items_text(items.push(x)) =~= json_items_text(items) + seq![',']
                + json_text(x));
        }
    }
}

proof fn lemma_entries_text_snoc(entries: Seq<(Seq<char>, JsonVal)>, k: Seq<char>, x: JsonVal)
    ensures
        json_entries_text(entries.push((k, x))) == if entries.len() == 0 {
            quoted(k) + seq![':'] + json_text(x)
        } else {
            json_entries_text(entries) + seq![','] + quoted(k) + seq![':'] + json_text(x)
        },
    decreases entries,
{
    if entries.len() == 0 {
        assert(entries.push((k, x))[0] == (k, x));
        assert(json_entries_text(entries.push((k, x))) =~= quoted(k) + seq![':'] + json_text(x));
    } else {
        assert(entries.push((k, x)).drop_first() =~= entries.drop_first().push((k, x)));
        lemma_entries_text_snoc(entries.drop_first(), k, x);
        assert(json_entries_text(entries.push((k, x))) =~= json_entries_text(entries) + seq![',']
            + quoted(k) + seq![':'] + json_text(x));
    }
}

/// Relies on `String::push` of std: appends exactly the one character.
#[verifier::external_body]
fn push_char(out: &mut String, c: char)
    ensures
        final(out)@ == old(out)@.push(c),
{
    out.push(c);
}

fn hex_digit(d: u32) -> (r: char)
    requires
        d < 16,
    ensures
        r == hex_char(d as nat),
{
    match d {
        0 => '0',
        1 => '1',
        2 => '2',
        3 => '3',
        4 => '4',
        5 => '5',
        6 => '6',
        7 => '7',
        8 => '8',
        9 => '9',
        10 => 'a',
        11 => 'b',
        12 => 'c',
        13 => 'd',
        14 => 'e',
        _ => 'f',
    }
}

/// Append `s` as a JSON string literal.
fn append_string_literal(s: &str, out: &mut String)
    ensures
        final(out)@ == old(out)@ + quoted(s@),
{
    push_char(out, '"');
    let n = s.unicode_len();
    let mut i: usize = 0;
    while i < n
        invariant
            n == s@.len(),
            0 <= i <= n,
            out@ == old(out)@ + seq!['"'] + esc_str(s@.subrange(0, i as int)),
        decreases n - i,
    {
        let c = s.get_char(i);
        if c == '"' {
            push_char(out, '\\');
            push_char(out, '"');
        } else if c == '\\' {
            push_char(out, '\\');
            push_char(out, '\\');
        } else if (c as u32) < 32 {
            push_char(out, '\\');
            push_char(out, 'u');
            push_char(out, '0');
            push_char(out, '0');
            push_char(out, hex_digit((c as u32) / 16));
            push_char(out, hex_digit((c as u32) % 16));
        } else {
            push_char(out, c);
        }
        proof {
            lemma_esc_str_snoc(s@.subrange(0, i as int), s@[i as int]);
            assert(s@.subrange(0, i as int + 1) =~= s@.subrange(0, i as int).push(s@[i as int]));
            assert(out@ =~= old(out)@ + seq!['"'] + esc_str(s@.subrange(0, i as int + 1)));
        }
        i += 1;
    }
    push_char(out, '"');
    proof {
        assert(s@.subrange(0, n as int) =~= s@);
        assert(out@ =~= old(out)@ + quoted(s@));
    }
}

/// Append the JSON text of `v`.
#[verifier::loop_isolation(false)]
#[verifier::rlimit(60)]
fn append_json(v: &JsonValue, out: &mut String)
    ensures
        final(out)@ == old(out)@ + json_text(v@),
    decreases v,
{
    match v {
        JsonValue::Null => {
            out.append("null");
        },
        JsonValue::Bool(b) => {
            if *b {
                out.append("true");
            } else {
                out.append("false");
            }
        },
        JsonValue::Num(s) => {
            out.append(s.as_str());
        },
        JsonValue::Str(s) => {
            append_string_literal(s.as_str(), out);
        },
        JsonValue::Arr(items) => {
            push_char(out, '[');
            proof {
                lemma_view_items_pointwise(items@);
            }
            let mut i: usize = 0;
            while i < items.len()
                invariant
                    0 <= i <= items@.len(),
                    view_items(items@).len() == items@.len(),
                    forall|j: int|
                        0 <= j < items@.len() ==> view_items(items@)[j] == items@[j]@,
                    out@ == old(out)@ + seq!['['] + json_items_text(
                        view_items(items@).subrange(0, i as int),
                    ),
                decreases items@.len() - i,
            {
                if i > 0 {
                    push_char(out, ',');
                }
                proof {
                    assert(decreases_to!(*v => *items));
                    assert(decreases_to!(*items => items@));
                    assert(decreases_to!(items@ => items@[i as int]));
                    assert(decreases_to!(*v => items@[i as int]));
                }
                append_json(&items[i], out);
                proof {
                    lemma_items_text_snoc(
                        view_items(items@).subrange(0, i as int),
                        view_items(items@)[i as int],
                    );
                    assert(view_items(items@).subrange(0, i as int + 1) =~= view_items(
                        items@,
                    ).subrange(0, i as int).push(view_items(items@)[i as int]));
                    assert(out@ =~= old(out)@ + seq!['['] + json_items_text(
                        view_items(items@).subrange(0, i as int + 1),
                    ));
                }
                i += 1;
            }
            push_char(out, ']');
            proof {
                assert(view_items(items@).subrange(0, items@.len() as int) =~= view_items(
                    items@,
                ));
                assert(out@ =~= old(out)@ + json_text(v@));
            }
        },
        JsonValue::Obj(entries) => {
            push_char(out, '{');
            proof {
                lemma_view_entries_pointwise(entries@);
            }
            let mut i: usize = 0;
            while i < entries.len()
                invariant
                    0 <= i <= entries@.len(),
                    view_entries(entries@).len() == entries@.len(),
                    forall|j: int|
                        0 <= j < entries@.len() ==> view_entries(entries@)[j] == (
                            entries@[j].0@,
                            entries@[j].1@,
                        ),
                    out@ == old(out)@ + seq!['{'] + json_entries_text(
                        view_entries(entries@).subrange(0, i as int),
                    ),
                decreases entries@.len() - i,
            {
                if i > 0 {
                    push_char(out, ',');
                }
                append_string_literal(entries[i].0.as_str(), out);
                push_char(out, ':');
                proof {
                    assert(decreases_to!(*v => *entries));
                    assert(decreases_to!(*entries => entries@));
                    assert(decreases_to!(entries@ => entries@[i as int]));
                    assert(decreases_to!(entries@[i as int] => entries@[i as int].1));
                    assert(decreases_to!(*v => entries@[i as int].1));
                }
                append_json(&entries[i].1, out);
                proof {
                    lemma_entries_text_snoc(
                        view_entries(entries@).subrange(0, i as int),
                        view_entries(entries@)[i as int].0,
                        view_entries(entries@)[i as int].1,
                    );
                    assert(view_entries(entries@).subrange(0, i as int + 1) =~= view_entries(
                        entries@,
                    ).subrange(0, i as int).push(view_entries(entries@)[i as int]));
                    assert(out@ =~= old(out)@ + seq!['{'] + json_entries_text(
                        view_entries(entries@).subrange(0, i as int + 1),
                    ));
                }
                i += 1;
            }
            push_char(out, '}');
            proof {
                assert(view_entries(entries@).subrange(0, entries@.len() as int) =~= view_entries(
                    entries@,
                ));
                assert(out@ =~= old(out)@ + json_text(v@));
            }
        },
    }
}

/// The JSON text of `v`, as a fresh string.
pub fn to_json_string(v: &JsonValue) -> (r: String)
    ensures
        r@ == json_text(v@),
{
    let mut out = String::new();
    append_json(v, &mut out);
    out
}

} // verus!

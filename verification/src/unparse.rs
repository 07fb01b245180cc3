//! Rendering JSON values as wire text, compactly or pretty-printed
//! with two-space indentation.

use vstd::prelude::*;
use crate::json::{Json, JsonV, jm, jm_arr, jm_obj, lemma_jm_arr_index, lemma_jm_obj_index};
use crate::text::{append_str, push_char, str_to_chars};

verus! {

/// The hexadecimal digit character for `d`, lower case.
pub open spec fn hex_char(d: nat) -> char {
    if d == 0 {
        '0'
    } else if d == 1 {
        '1'
    } else if d == 2 {
        '2'
    } else if d == 3 {
        '3'
    } else if d == 4 {
        '4'
    } else if d == 5 {
        '5'
    } else if d == 6 {
        '6'
    } else if d == 7 {
        '7'
    } else if d == 8 {
        '8'
    } else if d == 9 {
        '9'
    } else if d == 10 {
        'a'
    } else if d == 11 {
        'b'
    } else if d == 12 {
        'c'
    } else if d == 13 {
        'd'
    } else if d == 14 {
        'e'
    } else {
        'f'
    }
}

/// How one character appears inside a string literal: quotes and
/// backslashes escaped, common control characters by letter, the rest
/// of the control characters as `\u00XX`, everything else as itself.
pub open spec fn esc_char(c: char) -> Seq<char> {
    if c == '"' {
        seq!['\\', '"']
    } else if c == '\\' {
        seq!['\\', '\\']
    } else if c == '\u{0008}' {
        seq!['\\', 'b']
    } else if c == '\u{000c}' {
        seq!['\\', 'f']
    } else if c == '\n' {
        seq!['\\', 'n']
    } else if c == '\r' {
        seq!['\\', 'r']
    } else if c == '\t' {
        seq!['\\', 't']
    } else if (c as u32) < 0x20 {
        seq!['\\', 'u', '0', '0', hex_char(((c as u32) / 16) as nat), hex_char(((c as u32) % 16) as nat)]
    } else {
        seq![c]
    }
}

/// The escaped form of a character sequence.
pub open spec fn esc_str(s: Seq<char>) -> Seq<char>
    decreases s.len(),
{
    if s.len() == 0 {
        Seq::empty()
    } else {
        esc_char(s[0]) + esc_str(s.drop_first())
    }
}

/// A string literal: the escaped characters between double quotes.
pub open spec fn quoted(s: Seq<char>) -> Seq<char> {
    seq!['"'] + esc_str(s) + seq!['"']
}

/// The compact rendering of a value: no whitespace anywhere.
pub open spec fn ser(v: JsonV) -> Seq<char>
    decreases v, 1int,
{
    match v {
        JsonV::Null => "null"@,
        JsonV::Bool(b) => if b {
            "true"@
        } else {
            "false"@
        },
        JsonV::Num(lit) => lit,
        JsonV::Str(s) => quoted(s),
        JsonV::Arr(es) => if es.len() == 0 {
            "[]"@
        } else {
            seq!['['] + ser_items(es) + seq![']']
        },
        JsonV::Obj(fs) => if fs.len() == 0 {
            "{}"@
        } else {
            seq!['{'] + ser_fields(fs) + seq!['}']
        },
    }
}

/// Array elements, comma-separated.
pub open spec fn ser_items(es: Seq<JsonV>) -> Seq<char>
    decreases es, 0int,
{
    if es.len() == 0 {
        Seq::empty()
    } else if es.len() == 1 {
        ser(es[0])
    } else {
        ser(es[0]) + seq![','] + ser_items(es.drop_first())
    }
}

/// Object fields, comma-separated, each `"key":value`.
pub open spec fn ser_fields(fs: Seq<(Seq<char>, JsonV)>) -> Seq<char>
    decreases fs, 0int,
{
    if fs.len() == 0 {
        Seq::empty()
    } else if fs.len() == 1 {
        quoted(fs[0].0) + seq![':'] + ser(fs[0].1)
    } else {
        quoted(fs[0].0) + seq![':'] + ser(fs[0].1) + seq![','] + ser_fields(fs.drop_first())
    }
}

proof fn lemma_esc_str_app(a: Seq<char>, b: Seq<char>)
    ensures
        esc_str(a + b) == esc_str(a) + esc_str(b),
    decreases a.len(),
{
    if a.len() == 0 {
        assert(a + b =~= b);
        assert(Seq::<char>::empty() + esc_str(b) =~= esc_str(b));
    } else {
        lemma_esc_str_app(a.drop_first(), b);
        assert((a + b).drop_first() =~= a.drop_first() + b);
        assert((a + b)[0] == a[0]);
        assert(esc_char(a[0]) + (esc_str(a.drop_first()) + esc_str(b)) =~= (esc_char(a[0])
            + esc_str(a.drop_first())) + esc_str(b));
    }
}

proof fn lemma_ser_items_app(a: Seq<JsonV>, b: Seq<JsonV>)
    requires
        a.len() > 0,
        b.len() > 0,
    ensures
        ser_items(a + b) == ser_items(a) + seq![','] + ser_items(b),
    decreases a.len(),
{
    if a.len() == 1 {
        assert((a + b).drop_first() =~= b);
        assert((a + b)[0] == a[0]);
        assert((a + b).len() > 1);
    } else {
        lemma_ser_items_app(a.drop_first(), b);
        assert((a + b).drop_first() =~= a.drop_first() + b);
        assert((a + b)[0] == a[0]);
        assert(ser(a[0]) + seq![','] + (ser_items(a.drop_first()) + seq![','] + ser_items(b)) =~= (
        ser(a[0]) + seq![','] + ser_items(a.drop_first())) + seq![','] + ser_items(b));
    }
}

proof fn lemma_ser_fields_app(a: Seq<(Seq<char>, JsonV)>, b: Seq<(Seq<char>, JsonV)>)
    requires
        a.len() > 0,
        b.len() > 0,
    ensures
        ser_fields(a + b) == ser_fields(a) + seq![','] + ser_fields(b),
    decreases a.len(),
{
    if a.len() == 1 {
        assert((a + b).drop_first() =~= b);
        assert((a + b)[0] == a[0]);
        assert((a + b).len() > 1);
    } else {
        lemma_ser_fields_app(a.drop_first(), b);
        assert((a + b).drop_first() =~= a.drop_first() + b);
        assert((a + b)[0] == a[0]);
        assert(quoted(a[0].0) + seq![':'] + ser(a[0].1) + seq![','] + (ser_fields(a.drop_first())
            + seq![','] + ser_fields(b)) =~= (quoted(a[0].0) + seq![':'] + ser(a[0].1) + seq![',']
            + ser_fields(a.drop_first())) + seq![','] + ser_fields(b));
    }
}

fn hex_of(d: u32) -> (c: char)
    requires
        d < 16,
    ensures
        c == hex_char(d as nat),
{
    if d == 0 {
        '0'
    } else if d == 1 {
        '1'
    } else if d == 2 {
        '2'
    } else if d == 3 {
        '3'
    } else if d == 4 {
        '4'
    } else if d == 5 {
        '5'
    } else if d == 6 {
        '6'
    } else if d == 7 {
        '7'
    } else if d == 8 {
        '8'
    } else if d == 9 {
        '9'
    } else if d == 10 {
        'a'
    } else if d == 11 {
        'b'
    } else if d == 12 {
        'c'
    } else if d == 13 {
        'd'
    } else if d == 14 {
        'e'
    } else {
        'f'
    }
}

/// Appends the escaped form of `s` to `out`.
fn append_escaped(out: &mut String, s: &str)
    ensures
        final(out)@ == old(out)@ + esc_str(s@),
{
    let sv = str_to_chars(s);
    let ghost base = out@;
    let mut i: usize = 0;
    proof {
        assert(s@.subrange(0, 0) =~= Seq::<char>::empty());
        assert(base + Seq::<char>::empty() =~= base);
    }
    while i < sv.len()
        invariant
            sv@ == s@,
            i <= sv@.len(),
            out@ == base + esc_str(s@.subrange(0, i as int)),
        decreases sv@.len() - i,
    {
        let c = sv[i];
        if c == '"' {
            append_str(out, "\\\"");
        } else if c == '\\' {
            append_str(out, "\\\\");
        } else if c == '\u{0008}' {
            append_str(out, "\\b");
        } else if c == '\u{000c}' {
            append_str(out, "\\f");
        } else if c == '\n' {
            append_str(out, "\\n");
        } else if c == '\r' {
            append_str(out, "\\r");
        } else if c == '\t' {
            append_str(out, "\\t");
        } else if (c as u32) < 0x20 {
            let n = c as u32;
            append_str(out, "\\u00");
            push_char(out, hex_of(n / 16));
            push_char(out, hex_of(n % 16));
            proof {
                reveal_strlit("\\u00");
                assert(out@ =~= base + esc_str(s@.subrange(0, i as int)) + esc_char(c));
            }
        } else {
            push_char(out, c);
        }
        proof {
            reveal_strlit("\\\"");
            reveal_strlit("\\\\");
            reveal_strlit("\\b");
            reveal_strlit("\\f");
            reveal_strlit("\\n");
            reveal_strlit("\\r");
            reveal_strlit("\\t");
            assert(out@ =~= base + esc_str(s@.subrange(0, i as int)) + esc_char(s@[i as int]));
            lemma_esc_str_app(s@.subrange(0, i as int), seq![s@[i as int]]);
            assert(esc_str(seq![s@[i as int]]) =~= esc_char(s@[i as int]) + esc_str(
                seq![s@[i as int]].drop_first(),
            ));
            assert(seq![s@[i as int]].drop_first() =~= Seq::<char>::empty());
            assert(esc_char(s@[i as int]) + Seq::<char>::empty() =~= esc_char(s@[i as int]));
            assert(s@.subrange(0, i as int) + seq![s@[i as int]] =~= s@.subrange(0, i + 1));
            assert(base + esc_str(s@.subrange(0, i as int)) + esc_char(s@[i as int]) =~= base
                + esc_str(s@.subrange(0, i + 1)));
        }
        i = i + 1;
    }
    proof {
        assert(s@.subrange(0, s@.len() as int) =~= s@);
    }
}

/// Appends `"` + escaped `s` + `"` to `out`.
fn append_quoted(out: &mut String, s: &str)
    ensures
        final(out)@ == old(out)@ + quoted(s@),
{
    push_char(out, '"');
    append_escaped(out, s);
    push_char(out, '"');
    proof {
        assert(old(out)@ + seq!['"'] + esc_str(s@) + seq!['"'] =~= old(out)@ + quoted(s@));
    }
}

/// Appends the compact rendering of `v` to `out`.
#[verifier::loop_isolation(false)]
pub fn append_json(out: &mut String, v: &Json)
    ensures
        final(out)@ == old(out)@ + ser(jm(*v)),
    decreases v,
{
    proof {
        reveal_strlit("null");
        reveal_strlit("true");
        reveal_strlit("false");
        reveal_strlit("[]");
        reveal_strlit("{}");
    }
    match v {
        Json::Null => {
            append_str(out, "null");
        },
        Json::Bool(b) => {
            if *b {
                append_str(out, "true");
            } else {
                append_str(out, "false");
            }
        },
        Json::Num(lit) => {
            append_str(out, lit.as_str());
        },
        Json::Str(s) => {
            append_quoted(out, s.as_str());
        },
        Json::Arr(es) => {
            let ghost t = jm_arr(es@);
            proof {
                lemma_jm_arr_index(es@);
            }
            if es.len() == 0 {
                append_str(out, "[]");
            } else {
                let ghost base = out@;
                push_char(out, '[');
                let mut i: usize = 0;
                while i < es.len()
                    invariant
                        i <= es@.len(),
                        es@.len() > 0,
                        i > 0 ==> out@ == base + seq!['['] + ser_items(t.subrange(0, i as int)),
                        i == 0 ==> out@ == base + seq!['['],
                    decreases es@.len() - i,
                {
                    if i > 0 {
                        push_char(out, ',');
                    }
                    let ghost mid = out@;
                    append_json(out, &es[i]);
                    proof {
                        assert(jm(es@[i as int]) == t[i as int]);
                        if i == 0 {
                            assert(t.subrange(0, 1) =~= seq![t[0]]);
                            assert(ser_items(seq![t[0]]) == ser(t[0]));
                            assert(out@ =~= base + seq!['['] + ser_items(t.subrange(0, 1)));
                        } else {
                            lemma_ser_items_app(t.subrange(0, i as int), seq![t[i as int]]);
                            assert(ser_items(seq![t[i as int]]) == ser(t[i as int]));
                            assert(t.subrange(0, i as int) + seq![t[i as int]] =~= t.subrange(
                                0,
                                i + 1,
                            ));
                            assert(out@ =~= base + seq!['['] + ser_items(t.subrange(0, i + 1)));
                        }
                    }
                    i = i + 1;
                }
                push_char(out, ']');
                proof {
                    assert(t.subrange(0, t.len() as int) =~= t);
                    assert(out@ =~= base + (seq!['['] + ser_items(t) + seq![']']));
                }
            }
        },
        Json::Obj(fs) => {
            let ghost t = jm_obj(fs@);
            proof {
                lemma_jm_obj_index(fs@);
            }
            if fs.len() == 0 {
                append_str(out, "{}");
            } else {
                let ghost base = out@;
                push_char(out, '{');
                let mut i: usize = 0;
                while i < fs.len()
                    invariant
                        i <= fs@.len(),
                        fs@.len() > 0,
                        i > 0 ==> out@ == base + seq!['{'] + ser_fields(t.subrange(0, i as int)),
                        i == 0 ==> out@ == base + seq!['{'],
                    decreases fs@.len() - i,
                {
                    if i > 0 {
                        push_char(out, ',');
                    }
                    append_quoted(out, fs[i].0.as_str());
                    push_char(out, ':');
                    append_json(out, &fs[i].1);
                    proof {
                        let ghost entry = quoted(t[i as int].0) + seq![':'] + ser(t[i as int].1);
                        if i == 0 {
                            assert(t.subrange(0, 1) =~= seq![t[0]]);
                            assert(ser_fields(seq![t[0]]) == quoted(t[0].0) + seq![':'] + ser(
                                t[0].1,
                            ));
                            assert(out@ =~= base + seq!['{'] + ser_fields(t.subrange(0, 1)));
                        } else {
                            lemma_ser_fields_app(t.subrange(0, i as int), seq![t[i as int]]);
                            assert(ser_fields(seq![t[i as int]]) == entry);
                            assert(t.subrange(0, i as int) + seq![t[i as int]] =~= t.subrange(
                                0,
                                i + 1,
                            ));
                            assert(out@ =~= base + seq!['{'] + ser_fields(t.subrange(0, i + 1)));
                        }
                    }
                    i = i + 1;
                }
                push_char(out, '}');
                proof {
                    assert(t.subrange(0, t.len() as int) =~= t);
                    assert(out@ =~= base + (seq!['{'] + ser_fields(t) + seq!['}']));
                }
            }
        },
    }
}

/// The compact rendering of `v`.
pub fn to_json_string(v: &Json) -> (r: String)
    ensures
        r@ == ser(jm(*v)),
{
    let mut out = String::new();
    append_json(&mut out, v);
    proof {
        assert(Seq::<char>::empty() + ser(jm(*v)) =~= ser(jm(*v)));
    }
    out
}

/// The pretty rendering of `v` at indentation `ind`: arrays and
/// objects spread over lines, children indented two spaces deeper,
/// and `": "` between a key and its value.
pub open spec fn pser(v: JsonV, ind: Seq<char>) -> Seq<char>
    decreases v, 1int,
{
    match v {
        JsonV::Null => "null"@,
        JsonV::Bool(b) => if b {
            "true"@
        } else {
            "false"@
        },
        JsonV::Num(lit) => lit,
        JsonV::Str(s) => quoted(s),
        JsonV::Arr(es) => if es.len() == 0 {
            "[]"@
        } else {
            seq!['[', '\n'] + pser_items(es, ind + "  "@) + seq!['\n'] + ind + seq![']']
        },
        JsonV::Obj(fs) => if fs.len() == 0 {
            "{}"@
        } else {
            seq!['{', '\n'] + pser_fields(fs, ind + "  "@) + seq!['\n'] + ind + seq!['}']
        },
    }
}

/// Pretty array elements, one per line at indentation `ind`.
pub open spec fn pser_items(es: Seq<JsonV>, ind: Seq<char>) -> Seq<char>
    decreases es, 0int,
{
    if es.len() == 0 {
        Seq::empty()
    } else if es.len() == 1 {
        ind + pser(es[0], ind)
    } else {
        ind + pser(es[0], ind) + seq![',', '\n'] + pser_items(es.drop_first(), ind)
    }
}

/// Pretty object fields, one per line at indentation `ind`.
pub open spec fn pser_fields(fs: Seq<(Seq<char>, JsonV)>, ind: Seq<char>) -> Seq<char>
    decreases fs, 0int,
{
    if fs.len() == 0 {
        Seq::empty()
    } else if fs.len() == 1 {
        ind + quoted(fs[0].0) + seq![':', ' '] + pser(fs[0].1, ind)
    } else {
        ind + quoted(fs[0].0) + seq![':', ' '] + pser(fs[0].1, ind) + seq![',', '\n']
            + pser_fields(fs.drop_first(), ind)
    }
}

proof fn lemma_pser_items_app(a: Seq<JsonV>, b: Seq<JsonV>, ind: Seq<char>)
    requires
        a.len() > 0,
        b.len() > 0,
    ensures
        pser_items(a + b, ind) == pser_items(a, ind) + seq![',', '\n'] + pser_items(b, ind),
    decreases a.len(),
{
    if a.len() == 1 {
        assert((a + b).drop_first() =~= b);
        assert((a + b)[0] == a[0]);
        assert((a + b).len() > 1);
    } else {
        lemma_pser_items_app(a.drop_first(), b, ind);
        assert((a + b).drop_first() =~= a.drop_first() + b);
        assert((a + b)[0] == a[0]);
        assert(ind + pser(a[0], ind) + seq![',', '\n'] + (pser_items(a.drop_first(), ind) + seq![
            ',',
            '\n',
        ] + pser_items(b, ind)) =~= (ind + pser(a[0], ind) + seq![',', '\n'] + pser_items(
            a.drop_first(),
            ind,
        )) + seq![',', '\n'] + pser_items(b, ind));
    }
}

proof fn lemma_pser_fields_app(
    a: Seq<(Seq<char>, JsonV)>,
    b: Seq<(Seq<char>, JsonV)>,
    ind: Seq<char>,
)
    requires
        a.len() > 0,
        b.len() > 0,
    ensures
        pser_fields(a + b, ind) == pser_fields(a, ind) + seq![',', '\n'] + pser_fields(b, ind),
    decreases a.len(),
{
    if a.len() == 1 {
        assert((a + b).drop_first() =~= b);
        assert((a + b)[0] == a[0]);
        assert((a + b).len() > 1);
    } else {
        lemma_pser_fields_app(a.drop_first(), b, ind);
        assert((a + b).drop_first() =~= a.drop_first() + b);
        assert((a + b)[0] == a[0]);
        assert(ind + quoted(a[0].0) + seq![':', ' '] + pser(a[0].1, ind) + seq![',', '\n'] + (
        pser_fields(a.drop_first(), ind) + seq![',', '\n'] + pser_fields(b, ind)) =~= (ind + quoted(
            a[0].0,
        ) + seq![':', ' '] + pser(a[0].1, ind) + seq![',', '\n'] + pser_fields(
            a.drop_first(),
            ind,
        )) + seq![',', '\n'] + pser_fields(b, ind));
    }
}

/// Appends the pretty rendering of `v` at indentation `ind` to `out`.
#[verifier::loop_isolation(false)]
#[verifier::rlimit(60)]
pub fn append_pretty(out: &mut String, v: &Json, ind: &str)
    ensures
        final(out)@ == old(out)@ + pser(jm(*v), ind@),
    decreases v,
{
    proof {
        reveal_strlit("null");
        reveal_strlit("true");
        reveal_strlit("false");
        reveal_strlit("[]");
        reveal_strlit("{}");
        reveal_strlit("  ");
        reveal_strlit("[\n");
        reveal_strlit("{\n");
        reveal_strlit(",\n");
        reveal_strlit(": ");
        reveal_strlit("\n");
    }
    match v {
        Json::Null => {
            append_str(out, "null");
        },
        Json::Bool(b) => {
            if *b {
                append_str(out, "true");
            } else {
                append_str(out, "false");
            }
        },
        Json::Num(lit) => {
            append_str(out, lit.as_str());
        },
        Json::Str(s) => {
            append_quoted(out, s.as_str());
        },
        Json::Arr(es) => {
            let ghost t = jm_arr(es@);
            proof {
                lemma_jm_arr_index(es@);
            }
            if es.len() == 0 {
                append_str(out, "[]");
            } else {
                let ghost base = out@;
                let inner = crate::text::str_concat(ind, "  ");
                append_str(out, "[\n");
                let mut i: usize = 0;
                while i < es.len()
                    invariant
                        i <= es@.len(),
                        es@.len() > 0,
                        inner@ == ind@ + "  "@,
                        i > 0 ==> out@ == base + seq!['[', '\n'] + pser_items(
                            t.subrange(0, i as int),
                            inner@,
                        ),
                        i == 0 ==> out@ == base + seq!['[', '\n'],
                    decreases es@.len() - i,
                {
                    if i > 0 {
                        append_str(out, ",\n");
                    }
                    append_str(out, inner.as_str());
                    append_pretty(out, &es[i], inner.as_str());
                    proof {
                        assert(jm(es@[i as int]) == t[i as int]);
                        if i == 0 {
                            assert(t.subrange(0, 1) =~= seq![t[0]]);
                            assert(pser_items(seq![t[0]], inner@) == inner@ + pser(t[0], inner@));
                            assert(out@ =~= base + seq!['[', '\n'] + pser_items(
                                t.subrange(0, 1),
                                inner@,
                            ));
                        } else {
                            lemma_pser_items_app(t.subrange(0, i as int), seq![t[i as int]], inner@);
                            assert(pser_items(seq![t[i as int]], inner@) == inner@ + pser(
                                t[i as int],
                                inner@,
                            ));
                            assert(t.subrange(0, i as int) + seq![t[i as int]] =~= t.subrange(
                                0,
                                i + 1,
                            ));
                            assert(out@ =~= base + seq!['[', '\n'] + pser_items(
                                t.subrange(0, i + 1),
                                inner@,
                            ));
                        }
                    }
                    i = i + 1;
                }
                append_str(out, "\n");
                append_str(out, ind);
                push_char(out, ']');
                proof {
                    assert(t.subrange(0, t.len() as int) =~= t);
                    assert(out@ =~= base + (seq!['[', '\n'] + pser_items(t, inner@) + seq!['\n']
                        + ind@ + seq![']']));
                }
            }
        },
        Json::Obj(fs) => {
            let ghost t = jm_obj(fs@);
            proof {
                lemma_jm_obj_index(fs@);
            }
            if fs.len() == 0 {
                append_str(out, "{}");
            } else {
                let ghost base = out@;
                let inner = crate::text::str_concat(ind, "  ");
                append_str(out, "{\n");
                let mut i: usize = 0;
                while i < fs.len()
                    invariant
                        i <= fs@.len(),
                        fs@.len() > 0,
                        inner@ == ind@ + "  "@,
                        i > 0 ==> out@ == base + seq!['{', '\n'] + pser_fields(
                            t.subrange(0, i as int),
                            inner@,
                        ),
                        i == 0 ==> out@ == base + seq!['{', '\n'],
                    decreases fs@.len() - i,
                {
                    if i > 0 {
                        append_str(out, ",\n");
                    }
                    append_str(out, inner.as_str());
                    append_quoted(out, fs[i].0.as_str());
                    append_str(out, ": ");
                    append_pretty(out, &fs[i].1, inner.as_str());
                    proof {
                        let ghost entry = inner@ + quoted(t[i as int].0) + seq![':', ' '] + pser(
                            t[i as int].1,
                            inner@,
                        );
                        if i == 0 {
                            assert(t.subrange(0, 1) =~= seq![t[0]]);
                            assert(pser_fields(seq![t[0]], inner@) == inner@ + quoted(t[0].0)
                                + seq![':', ' '] + pser(t[0].1, inner@));
                            assert(out@ =~= base + seq!['{', '\n'] + pser_fields(
                                t.subrange(0, 1),
                                inner@,
                            ));
                        } else {
                            lemma_pser_fields_app(
                                t.subrange(0, i as int),
                                seq![t[i as int]],
                                inner@,
                            );
                            assert(pser_fields(seq![t[i as int]], inner@) == entry);
                            assert(t.subrange(0, i as int) + seq![t[i as int]] =~= t.subrange(
                                0,
                                i + 1,
                            ));
                            assert(out@ =~= base + seq!['{', '\n'] + pser_fields(
                                t.subrange(0, i + 1),
                                inner@,
                            ));
                        }
                    }
                    i = i + 1;
                }
                append_str(out, "\n");
                append_str(out, ind);
                push_char(out, '}');
                proof {
                    assert(t.subrange(0, t.len() as int) =~= t);
                    assert(out@ =~= base + (seq!['{', '\n'] + pser_fields(t, inner@) + seq!['\n']
                        + ind@ + seq!['}']));
                }
            }
        },
    }
}

/// The pretty rendering of `v`.
pub fn to_pretty_string(v: &Json) -> (r: String)
    ensures
        r@ == pser(jm(*v), Seq::<char>::empty()),
{
    let mut out = String::new();
    append_pretty(&mut out, v, "");
    proof {
        reveal_strlit("");
        assert(""@ =~= Seq::<char>::empty());
        assert(Seq::<char>::empty() + pser(jm(*v), Seq::<char>::empty()) =~= pser(
            jm(*v),
            Seq::<char>::empty(),
        ));
    }
    out
}

} // verus!

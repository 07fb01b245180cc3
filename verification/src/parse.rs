//! A recursive-descent parser for the wire format: JSON text to the
//! library's JSON values.
//!
//! The grammar is specified by the `sp_*` functions below and the
//! executable parser returns exactly what they describe.  Numbers keep
//! their literal text.  Strings understand the eight simple escapes
//! and `\uXXXX`, including surrogate pairs.  A duplicated object key
//! keeps its last occurrence.  Containers may nest at most
//! `MAX_NESTING_DEPTH` deep; anything deeper is rejected, so that no
//! request can exhaust the stack.

use vstd::prelude::*;
use crate::json::{Json, JsonV, jm, jm_arr, jm_obj, lemma_jm_obj_index, lookup};
use crate::text::{is_digit_char, is_ws_char, match_at, push_char, append_str, str_to_chars};

verus! {

/// How deep containers may nest before a text is rejected.
pub const MAX_NESTING_DEPTH: usize = 128;

/// Relies on `char::from_u32`: `Some` exactly on Unicode scalar
/// values, yielding the character with that code point.
#[verifier::external_body]
fn char_from_u32(v: u32) -> (r: Option<char>)
    ensures
        (v < 0xD800 || (0xE000 <= v && v <= 0x10FFFF)) <==> r is Some,
        r matches Some(c) ==> c == (v as char),
{
    char::from_u32(v)
}

/// The first index at or after `i` holding no whitespace.
pub open spec fn sp_ws(s: Seq<char>, i: int) -> int
    decreases s.len() - i,
    when 0 <= i <= s.len()
{
    if i < s.len() && is_ws_char(s[i]) {
        sp_ws(s, i + 1)
    } else {
        i
    }
}

/// The value of a hexadecimal digit, or -1.
pub open spec fn hex_val(c: char) -> int {
    let v = c as u32;
    if 0x30 <= v && v <= 0x39 {
        v - 0x30
    } else if 0x61 <= v && v <= 0x66 {
        v - 0x61 + 10
    } else if 0x41 <= v && v <= 0x46 {
        v - 0x41 + 10
    } else {
        -1
    }
}

/// The value of the four hexadecimal digits at `i`, or -1.
pub open spec fn hex4(s: Seq<char>, i: int) -> int {
    if hex_val(s[i]) < 0 || hex_val(s[i + 1]) < 0 || hex_val(s[i + 2]) < 0 || hex_val(s[i + 3])
        < 0 {
        -1
    } else {
        hex_val(s[i]) * 0x1000 + hex_val(s[i + 1]) * 0x100 + hex_val(s[i + 2]) * 0x10 + hex_val(
            s[i + 3],
        )
    }
}

/// The character named by a simple escape, if the letter names one.
pub open spec fn esc_of(e: char) -> Option<char> {
    if e == '"' {
        Option::Some('"')
    } else if e == '\\' {
        Option::Some('\\')
    } else if e == '/' {
        Option::Some('/')
    } else if e == 'b' {
        Option::Some('\u{0008}')
    } else if e == 'f' {
        Option::Some('\u{000c}')
    } else if e == 'n' {
        Option::Some('\n')
    } else if e == 'r' {
        Option::Some('\r')
    } else if e == 't' {
        Option::Some('\t')
    } else {
        Option::None
    }
}

/// The body of a string literal, from just after the opening quote:
/// the decoded characters and the index after the closing quote.
pub open spec fn sp_string(s: Seq<char>, i: int) -> Option<(Seq<char>, int)>
    decreases s.len() - i,
    when 0 <= i <= s.len()
{
    if i >= s.len() {
        Option::None
    } else if s[i] == '"' {
        Option::Some((Seq::empty(), i + 1))
    } else if s[i] == '\\' {
        if i + 1 >= s.len() {
            Option::None
        } else {
            let e = s[i + 1];
            if e == 'u' {
                if i + 6 > s.len() {
                    Option::None
                } else {
                    let h = hex4(s, i + 2);
                    if h < 0 {
                        Option::None
                    } else if 0xD800 <= h && h <= 0xDBFF {
                        if i + 12 > s.len() {
                            Option::None
                        } else if s[i + 6] == '\\' && s[i + 7] == 'u' {
                            let h2 = hex4(s, i + 8);
                            if 0xDC00 <= h2 && h2 <= 0xDFFF {
                                let code = 0x10000 + (h - 0xD800) * 0x400 + (h2 - 0xDC00);
                                match sp_string(s, i + 12) {
                                    Option::Some(rest) => Option::Some(
                                        (seq![code as char] + rest.0, rest.1),
                                    ),
                                    Option::None => Option::None,
                                }
                            } else {
                                Option::None
                            }
                        } else {
                            Option::None
                        }
                    } else if 0xDC00 <= h && h <= 0xDFFF {
                        Option::None
                    } else {
                        match sp_string(s, i + 6) {
                            Option::Some(rest) => Option::Some((seq![h as char] + rest.0, rest.1)),
                            Option::None => Option::None,
                        }
                    }
                }
            } else {
                match esc_of(e) {
                    Option::Some(ch) => match sp_string(s, i + 2) {
                        Option::Some(rest) => Option::Some((seq![ch] + rest.0, rest.1)),
                        Option::None => Option::None,
                    },
                    Option::None => Option::None,
                }
            }
        }
    } else if (s[i] as u32) < 0x20 {
        Option::None
    } else {
        match sp_string(s, i + 1) {
            Option::Some(rest) => Option::Some((seq![s[i]] + rest.0, rest.1)),
            Option::None => Option::None,
        }
    }
}

/// The first index at or after `i` holding no decimal digit.
pub open spec fn sp_digits(s: Seq<char>, i: int) -> int
    decreases s.len() - i,
    when 0 <= i <= s.len()
{
    if i < s.len() && is_digit_char(s[i]) {
        sp_digits(s, i + 1)
    } else {
        i
    }
}

pub proof fn lemma_sp_digits_range(s: Seq<char>, i: int)
    requires
        0 <= i <= s.len(),
    ensures
        i <= sp_digits(s, i) <= s.len(),
    decreases s.len() - i,
{
    if i < s.len() && is_digit_char(s[i]) {
        lemma_sp_digits_range(s, i + 1);
    }
}

/// A number literal starting at `i`: its text and the index after it.
/// The grammar is an optional minus sign, an integer part with no
/// leading zero, an optional fraction and an optional exponent.
pub open spec fn sp_number(s: Seq<char>, i: int) -> Option<(Seq<char>, int)> {
    let j0 = if i < s.len() && s[i] == '-' {
        i + 1
    } else {
        i
    };
    if j0 >= s.len() || !is_digit_char(s[j0]) || j0 > s.len() {
        Option::None
    } else {
        let j1 = if s[j0] == '0' {
            j0 + 1
        } else {
            sp_digits(s, j0)
        };
        if j1 < j0 || j1 > s.len() {
            Option::None
        } else {
            let j2 = if j1 + 1 < s.len() && s[j1] == '.' && is_digit_char(s[j1 + 1]) {
                sp_digits(s, j1 + 1)
            } else if j1 < s.len() && s[j1] == '.' {
                -1
            } else {
                j1
            };
            if j2 < j1 || j2 > s.len() {
                Option::None
            } else {
                let j3 = if j2 < s.len() && (s[j2] == 'e' || s[j2] == 'E') {
                    let k = if j2 + 1 < s.len() && (s[j2 + 1] == '+' || s[j2 + 1] == '-') {
                        j2 + 2
                    } else {
                        j2 + 1
                    };
                    if k < s.len() && is_digit_char(s[k]) {
                        sp_digits(s, k)
                    } else {
                        -1
                    }
                } else {
                    j2
                };
                if j3 < j2 || j3 > s.len() {
                    Option::None
                } else {
                    Option::Some((s.subrange(i, j3), j3))
                }
            }
        }
    }
}

/// A value starting at `i`, whitespace already skipped: the value and
/// the index just after it.  `depth` is the remaining nesting budget:
/// opening a container spends one level, and a container met with no
/// budget left fails the parse.
pub open spec fn sp_value(s: Seq<char>, i: int, depth: nat) -> Option<(JsonV, int)>
    decreases s.len() - i, 0int,
    when 0 <= i <= s.len()
{
    if i >= s.len() {
        Option::None
    } else if s[i] == 'n' {
        if match_at(s, "null"@, i) {
            Option::Some((JsonV::Null, i + 4))
        } else {
            Option::None
        }
    } else if s[i] == 't' {
        if match_at(s, "true"@, i) {
            Option::Some((JsonV::Bool(true), i + 4))
        } else {
            Option::None
        }
    } else if s[i] == 'f' {
        if match_at(s, "false"@, i) {
            Option::Some((JsonV::Bool(false), i + 5))
        } else {
            Option::None
        }
    } else if s[i] == '"' {
        match sp_string(s, i + 1) {
            Option::Some(r) => Option::Some((JsonV::Str(r.0), r.1)),
            Option::None => Option::None,
        }
    } else if s[i] == '[' {
        if depth == 0 {
            Option::None
        } else {
            let j = sp_ws(s, i + 1);
            if j < i + 1 || j > s.len() {
                Option::None
            } else if j < s.len() && s[j] == ']' {
                Option::Some((JsonV::Arr(Seq::empty()), j + 1))
            } else {
                match sp_elements(s, j, (depth - 1) as nat) {
                    Option::Some(r) => Option::Some((JsonV::Arr(r.0), r.1)),
                    Option::None => Option::None,
                }
            }
        }
    } else if s[i] == '{' {
        if depth == 0 {
            Option::None
        } else {
            let j = sp_ws(s, i + 1);
            if j < i + 1 || j > s.len() {
                Option::None
            } else if j < s.len() && s[j] == '}' {
                Option::Some((JsonV::Obj(Seq::empty()), j + 1))
            } else {
                match sp_members(s, j, (depth - 1) as nat) {
                    Option::Some(r) => Option::Some((JsonV::Obj(r.0), r.1)),
                    Option::None => Option::None,
                }
            }
        }
    } else {
        match sp_number(s, i) {
            Option::Some(r) => Option::Some((JsonV::Num(r.0), r.1)),
            Option::None => Option::None,
        }
    }
}

/// One or more array elements starting at `i` (whitespace skipped),
/// up to and including the closing bracket.
pub open spec fn sp_elements(s: Seq<char>, i: int, depth: nat) -> Option<(Seq<JsonV>, int)>
    decreases s.len() - i, 1int,
    when 0 <= i <= s.len()
{
    match sp_value(s, i, depth) {
        Option::None => Option::None,
        Option::Some(r) => {
            let (v, j) = r;
            if j < i || j > s.len() {
                Option::None
            } else {
                let j2 = sp_ws(s, j);
                if j2 < j || j2 > s.len() {
                    Option::None
                } else if j2 < s.len() && s[j2] == ']' {
                    Option::Some((seq![v], j2 + 1))
                } else if j2 < s.len() && s[j2] == ',' {
                    let k = sp_ws(s, j2 + 1);
                    if k < j2 + 1 || k > s.len() {
                        Option::None
                    } else {
                        match sp_elements(s, k, depth) {
                            Option::Some(rest) => Option::Some((seq![v] + rest.0, rest.1)),
                            Option::None => Option::None,
                        }
                    }
                } else {
                    Option::None
                }
            }
        },
    }
}

/// One or more object members starting at `i` (whitespace skipped, at
/// the opening quote of a key), up to and including the closing brace.
/// A key that recurs later in the object keeps its later binding.
pub open spec fn sp_members(s: Seq<char>, i: int, depth: nat) -> Option<(Seq<(Seq<char>, JsonV)>, int)>
    decreases s.len() - i, 1int,
    when 0 <= i <= s.len()
{
    if i >= s.len() || s[i] != '"' {
        Option::None
    } else {
        match sp_string(s, i + 1) {
            Option::None => Option::None,
            Option::Some(kr) => {
                let (key, j) = kr;
                if j < i || j > s.len() {
                    Option::None
                } else {
                    let j2 = sp_ws(s, j);
                    if j2 < j || j2 > s.len() || j2 >= s.len() || s[j2] != ':' {
                        Option::None
                    } else {
                        let k = sp_ws(s, j2 + 1);
                        if k < j2 + 1 || k > s.len() {
                            Option::None
                        } else {
                            match sp_value(s, k, depth) {
                                Option::None => Option::None,
                                Option::Some(vr) => {
                                    let (v, m) = vr;
                                    if m < k || m > s.len() {
                                        Option::None
                                    } else {
                                        let m2 = sp_ws(s, m);
                                        if m2 < m || m2 > s.len() {
                                            Option::None
                                        } else if m2 < s.len() && s[m2] == '}' {
                                            Option::Some((seq![(key, v)], m2 + 1))
                                        } else if m2 < s.len() && s[m2] == ',' {
                                            let p = sp_ws(s, m2 + 1);
                                            if p < m2 + 1 || p > s.len() {
                                                Option::None
                                            } else {
                                                match sp_members(s, p, depth) {
                                                    Option::Some(rest) => {
                                                        if lookup(rest.0, key) is Some {
                                                            Option::Some(rest)
                                                        } else {
                                                            Option::Some(
                                                                (seq![(key, v)] + rest.0, rest.1),
                                                            )
                                                        }
                                                    },
                                                    Option::None => Option::None,
                                                }
                                            }
                                        } else {
                                            Option::None
                                        }
                                    }
                                },
                            }
                        }
                    }
                }
            }
        }
    }
}

fn skip_ws(s: &Vec<char>, i: usize) -> (r: usize)
    requires
        i <= s@.len(),
    ensures
        r as int == sp_ws(s@, i as int),
        i <= r <= s@.len(),
{
    let n = s.len();
    let mut j: usize = i;
    while j < n && (s[j] == ' ' || s[j] == '\t' || s[j] == '\n' || s[j] == '\r')
        invariant
            n == s@.len(),
            i <= j <= n,
            sp_ws(s@, j as int) == sp_ws(s@, i as int),
        decreases n - j,
    {
        j = j + 1;
    }
    j
}

fn skip_digits(s: &Vec<char>, i: usize) -> (r: usize)
    requires
        i <= s@.len(),
    ensures
        r as int == sp_digits(s@, i as int),
        i <= r <= s@.len(),
{
    let n = s.len();
    let mut j: usize = i;
    while j < n && 0x30 <= (s[j] as u32) && (s[j] as u32) <= 0x39
        invariant
            n == s@.len(),
            i <= j <= n,
            sp_digits(s@, j as int) == sp_digits(s@, i as int),
        decreases n - j,
    {
        j = j + 1;
    }
    j
}

fn hex_digit(c: char) -> (r: i32)
    ensures
        r as int == hex_val(c),
{
    let v = c as u32;
    if 0x30 <= v && v <= 0x39 {
        (v - 0x30) as i32
    } else if 0x61 <= v && v <= 0x66 {
        (v - 0x61 + 10) as i32
    } else if 0x41 <= v && v <= 0x46 {
        (v - 0x41 + 10) as i32
    } else {
        -1
    }
}

fn parse_hex4(s: &Vec<char>, i: usize) -> (r: i32)
    requires
        i + 4 <= s@.len(),
    ensures
        r as int == hex4(s@, i as int),
        -1 <= r <= 0xFFFF,
{
    let n = s.len();
    let h0 = hex_digit(s[i]);
    let h1 = hex_digit(s[i + 1]);
    let h2 = hex_digit(s[i + 2]);
    let h3 = hex_digit(s[i + 3]);
    if h0 < 0 || h1 < 0 || h2 < 0 || h3 < 0 {
        -1
    } else {
        h0 * 0x1000 + h1 * 0x100 + h2 * 0x10 + h3
    }
}

/// The characters of `s` from `a` to `b`, as a string.
fn copy_range(s: &Vec<char>, a: usize, b: usize) -> (r: String)
    requires
        a <= b <= s@.len(),
    ensures
        r@ == s@.subrange(a as int, b as int),
{
    let mut out = String::new();
    let mut i: usize = a;
    while i < b
        invariant
            a <= i <= b <= s@.len(),
            out@ == s@.subrange(a as int, i as int),
        decreases b - i,
    {
        push_char(&mut out, s[i]);
        proof {
            assert(s@.subrange(a as int, i as int) + seq![s@[i as int]] =~= s@.subrange(
                a as int,
                i + 1,
            ));
        }
        i = i + 1;
    }
    out
}

/// Splices a decoded piece onto the front of a string parse.
pub open spec fn str_prepend(p: Seq<char>, r: Option<(Seq<char>, int)>) -> Option<(Seq<char>, int)> {
    match r {
        Option::Some(t) => Option::Some((p + t.0, t.1)),
        Option::None => Option::None,
    }
}

#[verifier::rlimit(100)]
#[verifier::loop_isolation(false)]
fn parse_string(s: &Vec<char>, i: usize) -> (r: Option<(String, usize)>)
    requires
        i <= s@.len(),
    ensures
        match r {
            Some(p) => sp_string(s@, i as int) matches Option::Some(q) && p.0@ == q.0 && p.1 as int
                == q.1 && i < p.1 <= s@.len(),
            None => sp_string(s@, i as int) is None,
        },
{
    let n = s.len();
    let mut out = String::new();
    let mut j: usize = i;
    proof {
        match sp_string(s@, i as int) {
            Option::Some(t) => {
                assert(Seq::<char>::empty() + t.0 =~= t.0);
            },
            Option::None => {},
        }
        assert(sp_string(s@, i as int) == str_prepend(out@, sp_string(s@, j as int)));
    }
    loop
        invariant
            i <= j <= n,
            sp_string(s@, i as int) == str_prepend(out@, sp_string(s@, j as int)),
        decreases n - j,
    {
        if j >= n {
            return None;
        }
        let c = s[j];
        if c == '"' {
            proof {
                assert(out@ + Seq::<char>::empty() =~= out@);
            }
            return Some((out, j + 1));
        }
        let ghost out0 = out@;
        if c == '\\' {
            if n - j <= 1 {
                return None;
            }
            let e = s[j + 1];
            if e == 'u' {
                if n - j < 6 {
                    return None;
                }
                let h = parse_hex4(s, j + 2);
                if h < 0 {
                    return None;
                }
                if 0xD800 <= h && h <= 0xDBFF {
                    if n - j < 12 {
                        return None;
                    }
                    if s[j + 6] == '\\' && s[j + 7] == 'u' {
                        let h2 = parse_hex4(s, j + 8);
                        if 0xDC00 <= h2 && h2 <= 0xDFFF {
                            let code: u32 = 0x10000 + (h as u32 - 0xD800) * 0x400 + (h2 as u32
                                - 0xDC00);
                            let ch = match char_from_u32(code) {
                                Some(ch) => ch,
                                None => {
                                    // a combined surrogate pair always names a scalar value
                                    proof {
                                        assert(false);
                                    }
                                    return None;
                                },
                            };
                            push_char(&mut out, ch);
                            proof {
                                lemma_prepend_step(s@, i as int, out0, j as int, ch, j + 12);
                            }
                            j = j + 12;
                        } else {
                            return None;
                        }
                    } else {
                        return None;
                    }
                } else if 0xDC00 <= h && h <= 0xDFFF {
                    return None;
                } else {
                    let ch = match char_from_u32(h as u32) {
                        Some(ch) => ch,
                        None => {
                            // surrogates were rejected above, so the value is scalar
                            proof {
                                assert(false);
                            }
                            return None;
                        },
                    };
                    push_char(&mut out, ch);
                    proof {
                        lemma_prepend_step(s@, i as int, out0, j as int, ch, j + 6);
                    }
                    j = j + 6;
                }
            } else {
                let ch: char = if e == '"' {
                    '"'
                } else if e == '\\' {
                    '\\'
                } else if e == '/' {
                    '/'
                } else if e == 'b' {
                    '\u{0008}'
                } else if e == 'f' {
                    '\u{000c}'
                } else if e == 'n' {
                    '\n'
                } else if e == 'r' {
                    '\r'
                } else if e == 't' {
                    '\t'
                } else {
                    return None;
                };
                push_char(&mut out, ch);
                proof {
                    lemma_prepend_step(s@, i as int, out0, j as int, ch, j + 2);
                }
                j = j + 2;
            }
        } else if (c as u32) < 0x20 {
            return None;
        } else {
            push_char(&mut out, c);
            proof {
                lemma_prepend_step(s@, i as int, out0, j as int, c, j + 1);
            }
            j = j + 1;
        }
    }
}

/// One decoding step keeps the splice invariant: if position `j`
/// decodes `ch` and continues at `jn`, prepending grows by `ch`.
proof fn lemma_prepend_step(s: Seq<char>, i0: int, out0: Seq<char>, j: int, ch: char, jn: int)
    requires
        0 <= i0,
        0 <= j,
        0 <= jn <= s.len(),
        sp_string(s, i0) == str_prepend(out0, sp_string(s, j)),
        sp_string(s, j) == str_prepend(seq![ch], sp_string(s, jn)),
    ensures
        sp_string(s, i0) == str_prepend(out0 + seq![ch], sp_string(s, jn)),
{
    match sp_string(s, jn) {
        Option::Some(t) => {
            assert(out0 + (seq![ch] + t.0) =~= (out0 + seq![ch]) + t.0);
        },
        Option::None => {},
    }
}

fn parse_number(s: &Vec<char>, i: usize) -> (r: Option<(String, usize)>)
    requires
        i <= s@.len(),
    ensures
        match r {
            Some(p) => sp_number(s@, i as int) matches Option::Some(q) && p.0@ == q.0 && p.1 as int
                == q.1 && i < p.1 <= s@.len(),
            None => sp_number(s@, i as int) is None,
        },
{
    let n = s.len();
    let j0: usize = if i < n && s[i] == '-' {
        i + 1
    } else {
        i
    };
    if j0 >= n || !(0x30 <= (s[j0] as u32) && (s[j0] as u32) <= 0x39) {
        return None;
    }
    let j1: usize = if s[j0] == '0' {
        j0 + 1
    } else {
        skip_digits(s, j0)
    };
    let j2: usize = if n - j1 > 1 && s[j1] == '.' && 0x30 <= (s[j1 + 1] as u32) && (s[j1 + 1]
        as u32) <= 0x39 {
        skip_digits(s, j1 + 1)
    } else if j1 < n && s[j1] == '.' {
        return None;
    } else {
        j1
    };
    let j3: usize = if j2 < n && (s[j2] == 'e' || s[j2] == 'E') {
        let k: usize = if n - j2 > 1 && (s[j2 + 1] == '+' || s[j2 + 1] == '-') {
            j2 + 2
        } else {
            j2 + 1
        };
        if k < n && 0x30 <= (s[k] as u32) && (s[k] as u32) <= 0x39 {
            skip_digits(s, k)
        } else {
            return None;
        }
    } else {
        j2
    };
    proof {
        if is_digit_char(s@[j0 as int]) && s@[j0 as int] != '0' {
            assert(sp_digits(s@, j0 as int) == sp_digits(s@, j0 + 1));
            lemma_sp_digits_range(s@, j0 + 1);
        }
    }
    Some((copy_range(s, i, j3), j3))
}

proof fn lemma_lookup_is_some(fs: Seq<(Seq<char>, JsonV)>, k: Seq<char>)
    ensures
        (lookup(fs, k) is Some) <==> exists|i: int| 0 <= i < fs.len() && (#[trigger] fs[i].0) == k,
    decreases fs.len(),
{
    if fs.len() > 0 {
        lemma_lookup_is_some(fs.drop_first(), k);
        if fs[0].0 == k {
        } else {
            if lookup(fs, k) is Some {
                let i = choose|i: int| 0 <= i < fs.drop_first().len() && (#[trigger] fs.drop_first()[i].0) == k;
                assert(fs[i + 1].0 == k);
            }
            if exists|i: int| 0 <= i < fs.len() && (#[trigger] fs[i].0) == k {
                let i = choose|i: int| 0 <= i < fs.len() && (#[trigger] fs[i].0) == k;
                assert(fs.drop_first()[i - 1].0 == k);
            }
        }
    }
}

#[verifier::loop_isolation(false)]
fn fields_have_key(fs: &Vec<(String, Json)>, key: &str) -> (r: bool)
    ensures
        r == (lookup(jm_obj(fs@), key@) is Some),
{
    proof {
        lemma_jm_obj_index(fs@);
        lemma_lookup_is_some(jm_obj(fs@), key@);
    }
    let mut i: usize = 0;
    while i < fs.len()
        invariant
            i <= fs@.len(),
            forall|j: int| 0 <= j < i ==> fs@[j].0@ != key@,
        decreases fs@.len() - i,
    {
        if crate::text::str_eq(fs[i].0.as_str(), key) {
            proof {
                assert(jm_obj(fs@)[i as int].0 == key@);
            }
            return true;
        }
        i = i + 1;
    }
    proof {
        assert forall|j: int| 0 <= j < jm_obj(fs@).len() implies (#[trigger] jm_obj(fs@)[j].0)
            != key@ by {
            assert(jm_obj(fs@)[j].0 == fs@[j].0@);
        }
    }
    false
}

#[verifier::rlimit(100)]
fn parse_value(s: &Vec<char>, i: usize, depth: usize) -> (r: Option<(Json, usize)>)
    requires
        i <= s@.len(),
    ensures
        match r {
            Some(p) => sp_value(s@, i as int, depth as nat) matches Option::Some(q) && jm(p.0)
                == q.0 && p.1 as int == q.1 && i < p.1 <= s@.len(),
            None => sp_value(s@, i as int, depth as nat) is None,
        },
    decreases s@.len() - i, 0int,
{
    let n = s.len();
    if i >= n {
        return None;
    }
    let c = s[i];
    if c == 'n' {
        proof {
            reveal_strlit("null");
        }
        if n - i >= 4 && s[i + 1] == 'u' && s[i + 2] == 'l' && s[i + 3] == 'l' {
            proof {
                assert(s@.subrange(i as int, i + 4) =~= "null"@);
            }
            Some((Json::Null, i + 4))
        } else {
            proof {
                if match_at(s@, "null"@, i as int) {
                    assert(s@.subrange(i as int, i + 4)[1] == s@[i + 1]);
                    assert(s@.subrange(i as int, i + 4)[2] == s@[i + 2]);
                    assert(s@.subrange(i as int, i + 4)[3] == s@[i + 3]);
                }
            }
            None
        }
    } else if c == 't' {
        proof {
            reveal_strlit("true");
        }
        if n - i >= 4 && s[i + 1] == 'r' && s[i + 2] == 'u' && s[i + 3] == 'e' {
            proof {
                assert(s@.subrange(i as int, i + 4) =~= "true"@);
            }
            Some((Json::Bool(true), i + 4))
        } else {
            proof {
                if match_at(s@, "true"@, i as int) {
                    assert(s@.subrange(i as int, i + 4)[1] == s@[i + 1]);
                    assert(s@.subrange(i as int, i + 4)[2] == s@[i + 2]);
                    assert(s@.subrange(i as int, i + 4)[3] == s@[i + 3]);
                }
            }
            None
        }
    } else if c == 'f' {
        proof {
            reveal_strlit("false");
        }
        if n - i >= 5 && s[i + 1] == 'a' && s[i + 2] == 'l' && s[i + 3] == 's' && s[i + 4] == 'e' {
            proof {
                assert(s@.subrange(i as int, i + 5) =~= "false"@);
            }
            Some((Json::Bool(false), i + 5))
        } else {
            proof {
                if match_at(s@, "false"@, i as int) {
                    assert(s@.subrange(i as int, i + 5)[1] == s@[i + 1]);
                    assert(s@.subrange(i as int, i + 5)[2] == s@[i + 2]);
                    assert(s@.subrange(i as int, i + 5)[3] == s@[i + 3]);
                    assert(s@.subrange(i as int, i + 5)[4] == s@[i + 4]);
                }
            }
            None
        }
    } else if c == '"' {
        match parse_string(s, i + 1) {
            Some(p) => Some((Json::Str(p.0), p.1)),
            None => None,
        }
    } else if c == '[' {
        if depth == 0 {
            return None;
        }
        let j = skip_ws(s, i + 1);
        if j < n && s[j] == ']' {
            proof {
                assert(jm_arr(Seq::<Json>::empty()) =~= Seq::<JsonV>::empty());
            }
            Some((Json::Arr(Vec::new()), j + 1))
        } else {
            match parse_elements(s, j, depth - 1) {
                Some(p) => Some((Json::Arr(p.0), p.1)),
                None => None,
            }
        }
    } else if c == '{' {
        if depth == 0 {
            return None;
        }
        let j = skip_ws(s, i + 1);
        if j < n && s[j] == '}' {
            proof {
                assert(jm_obj(Seq::<(String, Json)>::empty()) =~= Seq::<(Seq<char>, JsonV)>::empty());
            }
            Some((Json::Obj(Vec::new()), j + 1))
        } else {
            match parse_members(s, j, depth - 1) {
                Some(p) => Some((Json::Obj(p.0), p.1)),
                None => None,
            }
        }
    } else {
        match parse_number(s, i) {
            Some(p) => Some((Json::Num(p.0), p.1)),
            None => None,
        }
    }
}

/// Splices parsed elements onto the front of an array parse.
pub open spec fn items_prepend(p: Seq<JsonV>, r: Option<(Seq<JsonV>, int)>) -> Option<
    (Seq<JsonV>, int),
> {
    match r {
        Option::Some(t) => Option::Some((p + t.0, t.1)),
        Option::None => Option::None,
    }
}

#[verifier::rlimit(100)]
#[verifier::loop_isolation(false)]
fn parse_elements(s: &Vec<char>, i: usize, depth: usize) -> (r: Option<(Vec<Json>, usize)>)
    requires
        i <= s@.len(),
    ensures
        match r {
            Some(p) => sp_elements(s@, i as int, depth as nat) matches Option::Some(q) && jm_arr(
                p.0@,
            ) == q.0 && p.1 as int == q.1 && i < p.1 <= s@.len(),
            None => sp_elements(s@, i as int, depth as nat) is None,
        },
    decreases s@.len() - i, 1int,
{
    let n = s.len();
    let mut out: Vec<Json> = Vec::new();
    let mut j: usize = i;
    proof {
        match sp_elements(s@, i as int, depth as nat) {
            Option::Some(t) => {
                assert(Seq::<JsonV>::empty() + t.0 =~= t.0);
            },
            Option::None => {},
        }
        assert(jm_arr(out@) == Seq::<JsonV>::empty());
        assert(sp_elements(s@, i as int, depth as nat) == items_prepend(
            jm_arr(out@),
            sp_elements(s@, j as int, depth as nat),
        ));
    }
    loop
        invariant
            i <= j <= n,
            sp_elements(s@, i as int, depth as nat) == items_prepend(
                jm_arr(out@),
                sp_elements(s@, j as int, depth as nat),
            ),
        decreases n - j,
    {
        let v = match parse_value(s, j, depth) {
            Some(p) => p,
            None => {
                return None;
            },
        };
        let (v, jv) = v;
        let ghost vm = jm(v);
        let ghost out0 = out@;
        let j2 = skip_ws(s, jv);
        if j2 < n && s[j2] == ']' {
            out.push(v);
            proof {
                crate::json::lemma_jm_arr_index(out@);
                crate::json::lemma_jm_arr_index(out0);
                assert(jm_arr(out@) =~= jm_arr(out0) + seq![vm]);
                assert(sp_elements(s@, j as int, depth as nat) == Option::Some(
                    (seq![vm], j2 + 1 as int),
                ));
            }
            return Some((out, j2 + 1));
        }
        if j2 < n && s[j2] == ',' {
            let k = skip_ws(s, j2 + 1);
            out.push(v);
            proof {
                crate::json::lemma_jm_arr_index(out@);
                crate::json::lemma_jm_arr_index(out0);
                assert(jm_arr(out@) =~= jm_arr(out0) + seq![vm]);
                assert(sp_elements(s@, j as int, depth as nat) == items_prepend(
                    seq![vm],
                    sp_elements(s@, k as int, depth as nat),
                ));
                match sp_elements(s@, k as int, depth as nat) {
                    Option::Some(t) => {
                        assert(jm_arr(out0) + (seq![vm] + t.0) =~= (jm_arr(out0) + seq![vm])
                            + t.0);
                    },
                    Option::None => {},
                }
            }
            j = k;
        } else {
            return None;
        }
    }
}

/// Later bindings win: earlier members fold onto an already-merged
/// tail, and one whose key recurs there is dropped.
pub open spec fn merge_fields(
    p: Seq<(Seq<char>, JsonV)>,
    rest: Seq<(Seq<char>, JsonV)>,
) -> Seq<(Seq<char>, JsonV)>
    decreases p.len(),
{
    if p.len() == 0 {
        rest
    } else {
        let m = merge_fields(p.drop_first(), rest);
        if lookup(m, p[0].0) is Some {
            m
        } else {
            seq![p[0]] + m
        }
    }
}

proof fn lemma_merge_fields_app(
    a: Seq<(Seq<char>, JsonV)>,
    b: Seq<(Seq<char>, JsonV)>,
    rest: Seq<(Seq<char>, JsonV)>,
)
    ensures
        merge_fields(a + b, rest) == merge_fields(a, merge_fields(b, rest)),
    decreases a.len(),
{
    if a.len() == 0 {
        assert(a + b =~= b);
    } else {
        lemma_merge_fields_app(a.drop_first(), b, rest);
        assert((a + b).drop_first() =~= a.drop_first() + b);
        assert((a + b)[0] == a[0]);
    }
}

/// Splices parsed members onto the front of an object parse, later
/// bindings winning.
pub open spec fn members_splice(
    p: Seq<(Seq<char>, JsonV)>,
    r: Option<(Seq<(Seq<char>, JsonV)>, int)>,
) -> Option<(Seq<(Seq<char>, JsonV)>, int)> {
    match r {
        Option::Some(t) => Option::Some((merge_fields(p, t.0), t.1)),
        Option::None => Option::None,
    }
}

proof fn lemma_members_step(
    s: Seq<char>,
    i0: int,
    d: nat,
    raw0: Seq<(Seq<char>, JsonV)>,
    j: int,
    pair: (Seq<char>, JsonV),
    p2: int,
)
    requires
        sp_members(s, i0, d) == members_splice(raw0, sp_members(s, j, d)),
        sp_members(s, j, d) == members_splice(seq![pair], sp_members(s, p2, d)),
    ensures
        sp_members(s, i0, d) == members_splice(raw0 + seq![pair], sp_members(s, p2, d)),
{
    match sp_members(s, p2, d) {
        Option::Some(t) => {
            lemma_merge_fields_app(raw0, seq![pair], t.0);
        },
        Option::None => {},
    }
}

proof fn lemma_members_final(
    s: Seq<char>,
    i0: int,
    d: nat,
    raw0: Seq<(Seq<char>, JsonV)>,
    j: int,
    pair: (Seq<char>, JsonV),
    end: int,
)
    requires
        sp_members(s, i0, d) == members_splice(raw0, sp_members(s, j, d)),
        sp_members(s, j, d) == Option::Some((seq![pair], end)),
    ensures
        sp_members(s, i0, d) == Option::Some(
            (merge_fields(raw0 + seq![pair], Seq::<(Seq<char>, JsonV)>::empty()), end),
        ),
{
    lemma_merge_fields_app(raw0, seq![pair], Seq::<(Seq<char>, JsonV)>::empty());
    assert(seq![pair].drop_first() =~= Seq::<(Seq<char>, JsonV)>::empty());
    assert(merge_fields(
        Seq::<(Seq<char>, JsonV)>::empty(),
        Seq::<(Seq<char>, JsonV)>::empty(),
    ) == Seq::<(Seq<char>, JsonV)>::empty());
    assert(lookup(Seq::<(Seq<char>, JsonV)>::empty(), pair.0) is None);
    assert(seq![pair] + Seq::<(Seq<char>, JsonV)>::empty() =~= seq![pair]);
    assert(merge_fields(seq![pair], Seq::<(Seq<char>, JsonV)>::empty()) =~= seq![pair]);
}

/// Applies the later-wins merge to a raw member list.
#[verifier::loop_isolation(false)]
fn merge_members(raw: &Vec<(String, Json)>) -> (r: Vec<(String, Json)>)
    ensures
        jm_obj(r@) == merge_fields(jm_obj(raw@), Seq::<(Seq<char>, JsonV)>::empty()),
{
    let ghost t = jm_obj(raw@);
    proof {
        lemma_jm_obj_index(raw@);
    }
    let mut out: Vec<(String, Json)> = Vec::new();
    let mut idx = raw.len();
    proof {
        assert(t.subrange(idx as int, t.len() as int) =~= Seq::<(Seq<char>, JsonV)>::empty());
        assert(jm_obj(out@) == merge_fields(
            t.subrange(idx as int, t.len() as int),
            Seq::<(Seq<char>, JsonV)>::empty(),
        ));
    }
    while idx > 0
        invariant
            idx <= raw@.len(),
            jm_obj(out@) == merge_fields(
                t.subrange(idx as int, t.len() as int),
                Seq::<(Seq<char>, JsonV)>::empty(),
            ),
        decreases idx,
    {
        idx = idx - 1;
        let ghost sub = t.subrange(idx as int, t.len() as int);
        proof {
            assert(sub[0] == t[idx as int]);
            assert(sub.drop_first() =~= t.subrange(idx + 1, t.len() as int));
        }
        if !fields_have_key(&out, raw[idx].0.as_str()) {
            let ghost out0 = out@;
            let pair = (raw[idx].0.clone(), raw[idx].1.duplicate());
            out.insert(0, pair);
            proof {
                lemma_jm_obj_index(out@);
                lemma_jm_obj_index(out0);
                assert(jm_obj(out@) =~= seq![t[idx as int]] + jm_obj(out0));
            }
        }
    }
    proof {
        assert(t.subrange(0, t.len() as int) =~= t);
    }
    out
}

/// What parsing one `"key": value` member found: the pair and either
/// the index after the closing brace or the index of the next member.
enum MemberStep {
    Last { key: String, value: Json, end: usize },
    More { key: String, value: Json, next: usize },
}

/// One member starting at `j`, together with how the object goes on.
#[verifier::rlimit(100)]
fn parse_member(s: &Vec<char>, j: usize, depth: usize) -> (r: Option<MemberStep>)
    requires
        j <= s@.len(),
    ensures
        match r {
            Some(MemberStep::Last { key, value, end }) => j < end <= s@.len() && sp_members(
                s@,
                j as int,
                depth as nat,
            ) == Option::Some((seq![(key@, jm(value))], end as int)),
            Some(MemberStep::More { key, value, next }) => j < next <= s@.len() && sp_members(
                s@,
                j as int,
                depth as nat,
            ) == members_splice(
                seq![(key@, jm(value))],
                sp_members(s@, next as int, depth as nat),
            ),
            None => sp_members(s@, j as int, depth as nat) is None,
        },
    decreases s@.len() - j, 0int,
{
    let n = s.len();
    if j >= n {
        return None;
    }
    if s[j] != '"' {
        return None;
    }
    let kp = match parse_string(s, j + 1) {
        Some(p) => p,
        None => {
            return None;
        },
    };
    let (key, jk) = kp;
    let j2 = skip_ws(s, jk);
    if !(j2 < n) {
        return None;
    }
    if s[j2] != ':' {
        return None;
    }
    let k = skip_ws(s, j2 + 1);
    let vp = match parse_value(s, k, depth) {
        Some(p) => p,
        None => {
            return None;
        },
    };
    let (value, m) = vp;
    let m2 = skip_ws(s, m);
    if m2 < n && s[m2] == '}' {
        proof {
            assert(sp_members(s@, j as int, depth as nat) == Option::Some(
                (seq![(key@, jm(value))], m2 + 1 as int),
            ));
        }
        Some(MemberStep::Last { key, value, end: m2 + 1 })
    } else if m2 < n && s[m2] == ',' {
        let next = skip_ws(s, m2 + 1);
        proof {
            let pair = (key@, jm(value));
            assert(seq![pair].drop_first() =~= Seq::<(Seq<char>, JsonV)>::empty());
            match sp_members(s@, next as int, depth as nat) {
                Option::Some(t) => {
                    assert(merge_fields(Seq::<(Seq<char>, JsonV)>::empty(), t.0) == t.0);
                    assert(merge_fields(seq![pair], t.0) == (if lookup(t.0, key@) is Some {
                        t.0
                    } else {
                        seq![pair] + t.0
                    }));
                },
                Option::None => {},
            }
            assert(sp_members(s@, j as int, depth as nat) == members_splice(
                seq![pair],
                sp_members(s@, next as int, depth as nat),
            ));
        }
        Some(MemberStep::More { key, value, next })
    } else {
        None
    }
}

#[verifier::rlimit(100)]
#[verifier::loop_isolation(false)]
fn parse_members(s: &Vec<char>, i: usize, depth: usize) -> (r: Option<(Vec<(String, Json)>, usize)>)
    requires
        i <= s@.len(),
    ensures
        match r {
            Some(p) => sp_members(s@, i as int, depth as nat) matches Option::Some(q) && jm_obj(
                p.0@,
            ) == q.0 && p.1 as int == q.1 && i < p.1 <= s@.len(),
            None => sp_members(s@, i as int, depth as nat) is None,
        },
    decreases s@.len() - i, 1int,
{
    let n = s.len();
    let mut raw: Vec<(String, Json)> = Vec::new();
    let mut j: usize = i;
    proof {
        lemma_jm_obj_index(raw@);
        match sp_members(s@, i as int, depth as nat) {
            Option::Some(t) => {
                assert(merge_fields(jm_obj(raw@), t.0) == t.0);
            },
            Option::None => {},
        }
        assert(sp_members(s@, i as int, depth as nat) == members_splice(
            jm_obj(raw@),
            sp_members(s@, j as int, depth as nat),
        ));
    }
    loop
        invariant
            i <= j <= n,
            sp_members(s@, i as int, depth as nat) == members_splice(
                jm_obj(raw@),
                sp_members(s@, j as int, depth as nat),
            ),
        decreases n - j,
    {
        let step = match parse_member(s, j, depth) {
            Some(p) => p,
            None => {
                return None;
            },
        };
        let ghost raw0 = raw@;
        match step {
            MemberStep::Last { key, value, end } => {
                let ghost keym = key@;
                let ghost vm = jm(value);
                raw.push((key, value));
                let merged = merge_members(&raw);
                proof {
                    lemma_jm_obj_index(raw@);
                    lemma_jm_obj_index(raw0);
                    assert(jm_obj(raw@) =~= jm_obj(raw0) + seq![(keym, vm)]);
                    lemma_members_final(
                        s@,
                        i as int,
                        depth as nat,
                        jm_obj(raw0),
                        j as int,
                        (keym, vm),
                        end as int,
                    );
                }
                return Some((merged, end));
            },
            MemberStep::More { key, value, next } => {
                let ghost keym = key@;
                let ghost vm = jm(value);
                raw.push((key, value));
                proof {
                    lemma_jm_obj_index(raw@);
                    lemma_jm_obj_index(raw0);
                    assert(jm_obj(raw@) =~= jm_obj(raw0) + seq![(keym, vm)]);
                    lemma_members_step(
                        s@,
                        i as int,
                        depth as nat,
                        jm_obj(raw0),
                        j as int,
                        (keym, vm),
                        next as int,
                    );
                }
                j = next;
            },
        }
    }
}

/// Parses a whole line of text as one JSON value.
pub fn parse_json(s: &str) -> (r: Option<Json>)
    ensures
        match r {
            Some(v) => sp_parse(s@) matches Option::Some(m) && jm(v) == m,
            None => sp_parse(s@) is None,
        },
{
    let sv = str_to_chars(s);
    let i = skip_ws(&sv, 0);
    match parse_value(&sv, i, MAX_NESTING_DEPTH) {
        Some(p) => {
            let (v, j) = p;
            let k = skip_ws(&sv, j);
            if k == sv.len() {
                Some(v)
            } else {
                None
            }
        },
        None => None,
    }
}

/// The parse of a whole text: a single value, possibly surrounded by
/// whitespace, covering every character.
pub open spec fn sp_parse(s: Seq<char>) -> Option<JsonV> {
    let i = sp_ws(s, 0);
    if i < 0 || i > s.len() {
        Option::None
    } else {
        match sp_value(s, i, MAX_NESTING_DEPTH as nat) {
            Option::None => Option::None,
            Option::Some(r) => {
                let (v, j) = r;
                if j < 0 || j > s.len() {
                    Option::None
                } else if sp_ws(s, j) == s.len() {
                    Option::Some(v)
                } else {
                    Option::None
                }
            },
        }
    }
}

} // verus!

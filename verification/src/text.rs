//! String helpers: conversions between `str`, `String` and `Vec<char>`,
//! searching, joining, trimming, splitting, and decimal formatting.
//!
//! Everything here is specified over `Seq<char>` views.

use vstd::prelude::*;

verus! {

use vstd::string::StringExecFns;

/// Relies on `String::push`: appends one character.
#[verifier::external_body]
pub fn push_char(s: &mut String, c: char)
    ensures
        final(s)@ == old(s)@ + seq![c],
{
    s.push(c);
}

/// Relies on `str`'s `PartialEq`: two slices are equal exactly when their
/// character sequences are.
#[verifier::external_body]
pub fn str_eq(a: &str, b: &str) -> (r: bool)
    ensures
        r == (a@ == b@),
{
    a == b
}

/// The lowercase form of a character sequence, as `str::to_lowercase`
/// computes it; it depends on the characters alone.
pub uninterp spec fn lower_of(s: Seq<char>) -> Seq<char>;

/// Relies on `str::to_lowercase`: the result is a function of the
/// characters alone; an empty input stays empty.
#[verifier::external_body]
pub fn lowercase(s: &str) -> (r: String)
    ensures
        r@ == lower_of(s@),
        s@.len() == 0 ==> r@.len() == 0,
{
    s.to_lowercase()
}

/// Relies on `str::chars`: yields the slice's characters in order.
#[verifier::external_body]
pub fn str_to_chars(s: &str) -> (r: Vec<char>)
    ensures
        r@ == s@,
{
    s.chars().collect()
}

/// The concatenation of two slices.
pub fn str_concat(a: &str, b: &str) -> (r: String)
    ensures
        r@ == a@ + b@,
{
    a.to_owned().concat(b)
}

/// Appends a slice to a string.
pub fn append_str(s: &mut String, t: &str)
    ensures
        final(s)@ == old(s)@ + t@,
{
    s.append(t);
}

/// Whether `sub` occurs in `s` starting at index `i`.
pub open spec fn match_at(s: Seq<char>, sub: Seq<char>, i: int) -> bool {
    &&& 0 <= i
    &&& i + sub.len() <= s.len()
    &&& s.subrange(i, i + sub.len() as int) == sub
}

/// Whether `sub` occurs anywhere in `s`.
pub open spec fn contains_seq(s: Seq<char>, sub: Seq<char>) -> bool {
    exists|i: int| match_at(s, sub, i)
}

/// Whether `p` is a prefix of `s`.
pub open spec fn starts_with_seq(s: Seq<char>, p: Seq<char>) -> bool {
    p.len() <= s.len() && s.subrange(0, p.len() as int) == p
}

/// Whether the characters at `i` match `sub`.
fn check_match_at(s: &[char], sub: &[char], i: usize) -> (r: bool)
    requires
        i + sub@.len() <= s@.len(),
    ensures
        r == match_at(s@, sub@, i as int),
{
    let slen = s.len();
    let mut j: usize = 0;
    while j < sub.len()
        invariant
            slen == s@.len(),
            i + sub@.len() <= s@.len(),
            j <= sub@.len(),
            forall|k: int| 0 <= k < j ==> s@[i + k] == sub@[k],
        decreases sub@.len() - j,
    {
        proof {
            assert(i + j < s@.len());
        }
        if s[i + j] != sub[j] {
            proof {
                assert(s@.subrange(i as int, i + sub@.len() as int)[j as int] == s@[i + j]);
            }
            return false;
        }
        j = j + 1;
    }
    proof {
        assert(s@.subrange(i as int, i + sub@.len() as int) =~= sub@);
    }
    true
}

/// The least index at which `sub` occurs in `s`, if any.
pub fn find_first(s: &[char], sub: &[char]) -> (r: Option<usize>)
    ensures
        match r {
            Some(i) => match_at(s@, sub@, i as int) && forall|j: int|
                0 <= j < i ==> !match_at(s@, sub@, j),
            None => !contains_seq(s@, sub@),
        },
{
    let n = s.len();
    let m = sub.len();
    if m > n {
        proof {
            assert(forall|i: int| !match_at(s@, sub@, i));
        }
        return None;
    }
    if m == 0 {
        proof {
            assert(s@.subrange(0, 0) =~= sub@);
        }
        return Some(0);
    }
    let mut i: usize = 0;
    while i <= n - m
        invariant
            0 < m <= n,
            n == s@.len(),
            m == sub@.len(),
            i <= n - m + 1,
            forall|j: int| 0 <= j < i ==> !match_at(s@, sub@, j),
        decreases n - i,
    {
        if check_match_at(s, sub, i) {
            return Some(i);
        }
        i = i + 1;
    }
    proof {
        assert(forall|j: int| j >= i ==> !match_at(s@, sub@, j));
    }
    None
}

/// Whether `sub` occurs in `s`.
pub fn str_contains(s: &str, sub: &str) -> (r: bool)
    ensures
        r == contains_seq(s@, sub@),
{
    let sv = str_to_chars(s);
    let bv = str_to_chars(sub);
    find_first(sv.as_slice(), bv.as_slice()).is_some()
}

/// Whether the character `c` occurs in `s`.
pub fn str_contains_char(s: &str, c: char) -> (r: bool)
    ensures
        r == s@.contains(c),
{
    let sv = str_to_chars(s);
    let mut i: usize = 0;
    while i < sv.len()
        invariant
            sv@ == s@,
            i <= sv@.len(),
            forall|j: int| 0 <= j < i ==> sv@[j] != c,
        decreases sv@.len() - i,
    {
        if sv[i] == c {
            return true;
        }
        i = i + 1;
    }
    false
}

/// Whether `p` is a prefix of `s`.
pub fn str_starts_with(s: &str, p: &str) -> (r: bool)
    ensures
        r == starts_with_seq(s@, p@),
{
    let sv = str_to_chars(s);
    let pv = str_to_chars(p);
    if pv.len() > sv.len() {
        return false;
    }
    let r = check_match_at(sv.as_slice(), pv.as_slice(), 0);
    proof {
        assert(match_at(s@, p@, 0) == starts_with_seq(s@, p@));
    }
    r
}

/// The suffix of `s` from character index `from`.
pub fn str_suffix(s: &str, from: usize) -> (r: String)
    requires
        from <= s@.len(),
    ensures
        r@ == s@.subrange(from as int, s@.len() as int),
{
    let sv = str_to_chars(s);
    let mut out = String::new();
    let mut i: usize = from;
    while i < sv.len()
        invariant
            sv@ == s@,
            from <= i <= sv@.len(),
            out@ == s@.subrange(from as int, i as int),
        decreases sv@.len() - i,
    {
        push_char(&mut out, sv[i]);
        proof {
            assert(s@.subrange(from as int, i as int) + seq![s@[i as int]] =~= s@.subrange(
                from as int,
                i + 1,
            ));
        }
        i = i + 1;
    }
    out
}

/// Whether one of the strings holds exactly the characters of `s`.
pub fn vec_contains_str(v: &Vec<String>, s: &str) -> (r: bool)
    ensures
        r == views_of(v@).contains(s@),
{
    let mut i: usize = 0;
    while i < v.len()
        invariant
            i <= v@.len(),
            forall|j: int| 0 <= j < i ==> v@[j]@ != s@,
        decreases v@.len() - i,
    {
        if str_eq(v[i].as_str(), s) {
            proof {
                assert(views_of(v@)[i as int] == s@);
            }
            return true;
        }
        i = i + 1;
    }
    proof {
        assert forall|j: int| 0 <= j < views_of(v@).len() implies views_of(v@)[j] != s@ by {
            assert(views_of(v@)[j] == v@[j]@);
        }
    }
    false
}

/// The members of `v` joined by `sep`.
pub open spec fn spec_join(v: Seq<Seq<char>>, sep: Seq<char>) -> Seq<char>
    decreases v.len(),
{
    if v.len() == 0 {
        Seq::empty()
    } else if v.len() == 1 {
        v[0]
    } else {
        v[0] + sep + spec_join(v.drop_first(), sep)
    }
}

/// The views of a vector of strings.
pub open spec fn views_of(v: Seq<String>) -> Seq<Seq<char>> {
    v.map_values(|s: String| s@)
}

/// Joins the strings with the separator between neighbours.
pub fn join_strings(v: &Vec<String>, sep: &str) -> (r: String)
    ensures
        r@ == spec_join(views_of(v@), sep@),
{
    let mut out = String::new();
    let mut i: usize = 0;
    proof {
        assert(views_of(v@).subrange(0, v@.len() as int) =~= views_of(v@));
        assert(Seq::<char>::empty() + spec_join(views_of(v@), sep@) =~= spec_join(
            views_of(v@),
            sep@,
        ));
    }
    while i < v.len()
        invariant
            i <= v@.len(),
            out@ + spec_join(views_of(v@).subrange(i as int, v@.len() as int), sep@) == spec_join(
                views_of(v@),
                sep@,
            ),
        decreases v@.len() - i,
    {
        proof {
            let tail = views_of(v@).subrange(i as int, v@.len() as int);
            assert(tail[0] == v@[i as int]@);
            if i + 1 < v@.len() {
                assert(tail.drop_first() =~= views_of(v@).subrange(i + 1, v@.len() as int));
            } else {
                assert(tail.len() == 1);
            }
        }
        append_str(&mut out, v[i].as_str());
        if i + 1 < v.len() {
            append_str(&mut out, sep);
        }
        i = i + 1;
    }
    proof {
        if v@.len() > 0 {
            assert(views_of(v@).subrange(v@.len() as int, v@.len() as int) =~= Seq::<
                Seq<char>,
            >::empty());
        }
        assert(out@ + Seq::<char>::empty() =~= out@);
    }
    out
}

/// An ASCII whitespace character, as the transport strips them.
pub open spec fn is_ws_char(c: char) -> bool {
    c == ' ' || c == '\t' || c == '\n' || c == '\r'
}

/// `s` without leading and trailing whitespace.
pub open spec fn spec_trim(s: Seq<char>) -> Seq<char>
    decreases s.len(),
{
    if s.len() == 0 {
        s
    } else if is_ws_char(s[0]) {
        spec_trim(s.drop_first())
    } else if is_ws_char(s.last()) {
        spec_trim(s.drop_last())
    } else {
        s
    }
}

proof fn lemma_trim_range(s: Seq<char>, a: int, b: int)
    requires
        0 <= a <= b < s.len(),
        !is_ws_char(s[a]),
        !is_ws_char(s[b]),
        forall|i: int| 0 <= i < a ==> is_ws_char(s[i]),
        forall|i: int| b < i < s.len() ==> is_ws_char(s[i]),
    ensures
        spec_trim(s) == s.subrange(a, b + 1),
    decreases s.len(),
{
    if a > 0 {
        let t = s.drop_first();
        lemma_trim_range(t, a - 1, b - 1);
        assert(t.subrange(a - 1, b) =~= s.subrange(a, b + 1));
    } else if b < s.len() - 1 {
        let t = s.drop_last();
        lemma_trim_range(t, a, b);
        assert(t.subrange(a, b + 1) =~= s.subrange(a, b + 1));
    } else {
        assert(s.subrange(0, s.len() as int) =~= s);
    }
}

proof fn lemma_trim_all_ws(s: Seq<char>)
    requires
        forall|i: int| 0 <= i < s.len() ==> is_ws_char(s[i]),
    ensures
        spec_trim(s) == Seq::<char>::empty(),
    decreases s.len(),
{
    if s.len() > 0 {
        lemma_trim_all_ws(s.drop_first());
    } else {
        assert(s =~= Seq::<char>::empty());
    }
}

/// `s` without leading and trailing ASCII whitespace.
pub fn trim_str(s: &str) -> (r: String)
    ensures
        r@ == spec_trim(s@),
{
    let sv = str_to_chars(s);
    let n = sv.len();
    let mut a: usize = 0;
    while a < n && (sv[a] == ' ' || sv[a] == '\t' || sv[a] == '\n' || sv[a] == '\r')
        invariant
            n == sv@.len(),
            a <= n,
            forall|i: int| 0 <= i < a ==> is_ws_char(sv@[i]),
        decreases n - a,
    {
        a = a + 1;
    }
    if a == n {
        proof {
            lemma_trim_all_ws(s@);
        }
        return String::new();
    }
    let mut b: usize = n - 1;
    while b > a && (sv[b] == ' ' || sv[b] == '\t' || sv[b] == '\n' || sv[b] == '\r')
        invariant
            n == sv@.len(),
            a <= b < n,
            forall|i: int| 0 <= i < a ==> is_ws_char(sv@[i]),
            !is_ws_char(sv@[a as int]),
            forall|i: int| b < i < n ==> is_ws_char(sv@[i]),
        decreases b,
    {
        b = b - 1;
    }
    proof {
        lemma_trim_range(s@, a as int, b as int);
    }
    let mut out = String::new();
    let mut i: usize = a;
    while i <= b
        invariant
            n == sv@.len(),
            sv@ == s@,
            a <= i <= b + 1,
            b < n,
            out@ == s@.subrange(a as int, i as int),
        decreases b + 1 - i,
    {
        push_char(&mut out, sv[i]);
        proof {
            assert(s@.subrange(a as int, i as int) + seq![s@[i as int]] =~= s@.subrange(
                a as int,
                i + 1,
            ));
        }
        i = i + 1;
    }
    out
}

/// The pieces of `s` split on every comma; splitting the empty sequence
/// yields one empty piece.
pub open spec fn spec_split(s: Seq<char>) -> Seq<Seq<char>>
    decreases s.len(),
{
    if s.len() == 0 {
        seq![Seq::<char>::empty()]
    } else if s[0] == ',' {
        seq![Seq::<char>::empty()] + spec_split(s.drop_first())
    } else {
        let rest = spec_split(s.drop_first());
        seq![seq![s[0]] + rest[0]] + rest.drop_first()
    }
}

proof fn lemma_split_nonempty(s: Seq<char>)
    ensures
        spec_split(s).len() >= 1,
    decreases s.len(),
{
    if s.len() > 0 {
        lemma_split_nonempty(s.drop_first());
    }
}

/// Splits `s` on commas.
pub fn split_commas(s: &str) -> (r: Vec<String>)
    ensures
        views_of(r@) == spec_split(s@),
{
    let sv = str_to_chars(s);
    let n = sv.len();
    let ghost total = s@;
    let mut out: Vec<String> = Vec::new();
    let mut cur = String::new();
    let mut i: usize = 0;
    proof {
        lemma_split_nonempty(total);
        assert(total.subrange(0, n as int) =~= total);
        assert(Seq::<char>::empty() + spec_split(total)[0] =~= spec_split(total)[0]);
        assert(views_of(out@) + seq![spec_split(total)[0]] + spec_split(total).drop_first()
            =~= seq![spec_split(total)[0]] + spec_split(total).drop_first());
        assert(seq![spec_split(total)[0]] + spec_split(total).drop_first() =~= spec_split(total));
    }
    while i < n
        invariant
            n == sv@.len(),
            sv@ == total,
            i <= n,
            spec_split(total) == views_of(out@) + seq![cur@ + spec_split(
                total.subrange(i as int, n as int),
            )[0]] + spec_split(total.subrange(i as int, n as int)).drop_first(),
        decreases n - i,
    {
        let ghost rem = total.subrange(i as int, n as int);
        let ghost rem2 = total.subrange(i + 1, n as int);
        let ghost out0 = out@;
        let ghost cur0 = cur@;
        proof {
            assert(rem.len() > 0);
            assert(rem[0] == total[i as int]);
            assert(rem.drop_first() =~= rem2);
            lemma_split_nonempty(rem2);
        }
        let c = sv[i];
        if c == ',' {
            out.push(cur);
            cur = String::new();
            proof {
                let rest2 = spec_split(rem2);
                assert(spec_split(rem) == seq![Seq::<char>::empty()] + rest2);
                assert(spec_split(rem)[0] == Seq::<char>::empty());
                assert(spec_split(rem).drop_first() =~= rest2);
                assert(cur0 + Seq::<char>::empty() =~= cur0);
                assert(views_of(out@) =~= views_of(out0) + seq![cur0]);
                assert(rest2 =~= seq![rest2[0]] + rest2.drop_first());
                assert(cur@ + rest2[0] =~= rest2[0]);
                assert(views_of(out0) + seq![cur0] + seq![rest2[0]] + rest2.drop_first()
                    =~= views_of(out0) + seq![cur0 + spec_split(rem)[0]] + spec_split(
                    rem,
                ).drop_first());
            }
        } else {
            push_char(&mut cur, c);
            proof {
                let rest = spec_split(rem2);
                assert(spec_split(rem) == seq![seq![rem[0]] + rest[0]] + rest.drop_first());
                assert(spec_split(rem)[0] == seq![rem[0]] + rest[0]);
                assert(spec_split(rem).drop_first() =~= rest.drop_first());
                assert(cur@ + rest[0] =~= cur0 + (seq![rem[0]] + rest[0]));
            }
        }
        i = i + 1;
    }
    let ghost out0 = out@;
    let ghost cur0 = cur@;
    out.push(cur);
    proof {
        let rem = total.subrange(n as int, n as int);
        assert(rem =~= Seq::<char>::empty());
        assert(spec_split(rem) == seq![Seq::<char>::empty()]);
        assert(spec_split(rem).drop_first() =~= Seq::<Seq<char>>::empty());
        assert(cur0 + Seq::<char>::empty() =~= cur0);
        assert(views_of(out@) =~= views_of(out0) + seq![cur0]);
        assert(views_of(out0) + seq![cur0] =~= views_of(out0) + seq![cur0] + Seq::<
            Seq<char>,
        >::empty());
        assert(views_of(out@) =~= spec_split(total));
    }
    out
}

/// `s` with every non-overlapping occurrence of `from`, scanned left to
/// right, replaced by `to`.
pub open spec fn spec_replace(s: Seq<char>, from: Seq<char>, to: Seq<char>) -> Seq<char>
    decreases s.len(),
    when from.len() > 0
{
    if s.len() < from.len() {
        s
    } else if match_at(s, from, 0) {
        to + spec_replace(s.skip(from.len() as int), from, to)
    } else {
        seq![s[0]] + spec_replace(s.drop_first(), from, to)
    }
}

/// Replaces every occurrence of `from` by `to`, left to right.
pub fn replace_all(s: &str, from: &str, to: &str) -> (r: String)
    requires
        from@.len() > 0,
    ensures
        r@ == spec_replace(s@, from@, to@),
{
    let sv = str_to_chars(s);
    let fv = str_to_chars(from);
    let n = sv.len();
    let m = fv.len();
    let mut out = String::new();
    let mut i: usize = 0;
    proof {
        assert(s@.subrange(0, n as int) =~= s@);
        assert(Seq::<char>::empty() + spec_replace(s@, from@, to@) =~= spec_replace(
            s@,
            from@,
            to@,
        ));
    }
    while i < n
        invariant
            n == sv@.len(),
            m == fv@.len(),
            sv@ == s@,
            fv@ == from@,
            m > 0,
            i <= n,
            out@ + spec_replace(s@.subrange(i as int, n as int), from@, to@) == spec_replace(
                s@,
                from@,
                to@,
            ),
        decreases n - i,
    {
        let ghost rem = s@.subrange(i as int, n as int);
        if m <= n - i && check_match_at(sv.as_slice(), fv.as_slice(), i) {
            append_str(&mut out, to);
            proof {
                assert(rem.subrange(0, m as int) =~= s@.subrange(i as int, i + m));
                assert(match_at(rem, from@, 0));
                assert(rem.skip(m as int) =~= s@.subrange(i + m, n as int));
            }
            i = i + m;
        } else {
            push_char(&mut out, sv[i]);
            proof {
                assert(rem[0] == s@[i as int]);
                assert(rem.drop_first() =~= s@.subrange(i + 1, n as int));
                if i + m <= n {
                    assert(rem.subrange(0, m as int) =~= s@.subrange(i as int, i + m));
                    assert(!match_at(rem, from@, 0));
                } else {
                    assert(rem.len() < m);
                    assert(rem =~= seq![rem[0]] + rem.drop_first());
                }
            }
            i = i + 1;
        }
    }
    proof {
        assert(s@.subrange(n as int, n as int) =~= Seq::<char>::empty());
        assert(out@ + Seq::<char>::empty() =~= out@);
    }
    out
}

/// The decimal digit character for `d`.
pub open spec fn digit_char(d: nat) -> char {
    if d == 0 {
        '0'
    } else if d == 1 {
        '1'
    } else if d == 2 {
        '2'
    } else if d == 3 {
        '3'
    } else if d == 4 {
        '4'
    } else if d == 5 {
        '5'
    } else if d == 6 {
        '6'
    } else if d == 7 {
        '7'
    } else if d == 8 {
        '8'
    } else {
        '9'
    }
}

/// The decimal digits of `n`, most significant first.
pub open spec fn dec_str(n: nat) -> Seq<char>
    decreases n,
{
    if n < 10 {
        seq![digit_char(n)]
    } else {
        dec_str(n / 10) + seq![digit_char(n % 10)]
    }
}

fn digit_of(d: u64) -> (c: char)
    requires
        d < 10,
    ensures
        c == digit_char(d as nat),
{
    if d == 0 {
        '0'
    } else if d == 1 {
        '1'
    } else if d == 2 {
        '2'
    } else if d == 3 {
        '3'
    } else if d == 4 {
        '4'
    } else if d == 5 {
        '5'
    } else if d == 6 {
        '6'
    } else if d == 7 {
        '7'
    } else if d == 8 {
        '8'
    } else {
        '9'
    }
}

/// The decimal rendering of `n`.
pub fn u64_to_string(n: u64) -> (r: String)
    ensures
        r@ == dec_str(n as nat),
    decreases n,
{
    if n < 10 {
        let mut s = String::new();
        push_char(&mut s, digit_of(n));
        proof {
            assert(Seq::<char>::empty() + seq![digit_char(n as nat)] =~= seq![
                digit_char(n as nat),
            ]);
        }
        s
    } else {
        let mut s = u64_to_string(n / 10);
        push_char(&mut s, digit_of(n % 10));
        s
    }
}

/// A decimal digit character.
pub open spec fn is_digit_char(c: char) -> bool {
    0x30 <= (c as u32) && (c as u32) <= 0x39
}

/// Whether `s` is one or more decimal digits.
pub open spec fn all_digits(s: Seq<char>) -> bool {
    s.len() > 0 && forall|i: int| 0 <= i < s.len() ==> is_digit_char(#[trigger] s[i])
}

/// The value of a digit sequence, most significant first.
pub open spec fn dec_val(s: Seq<char>) -> int
    decreases s.len(),
{
    if s.len() == 0 {
        0
    } else {
        dec_val(s.drop_last()) * 10 + ((s.last() as u32) - 0x30)
    }
}

proof fn lemma_dec_val_mono(s: Seq<char>, i: int)
    requires
        0 <= i <= s.len(),
        all_digits(s),
    ensures
        dec_val(s.subrange(0, i)) <= dec_val(s),
    decreases s.len() - i,
{
    if i < s.len() {
        lemma_dec_val_mono(s, i + 1);
        let a = s.subrange(0, i);
        let b = s.subrange(0, i + 1);
        assert(b.drop_last() =~= a);
        assert(b.last() == s[i]);
        assert(dec_val(b) == dec_val(a) * 10 + ((s[i] as u32) - 0x30));
        assert(dec_val(a) >= 0) by {
            lemma_dec_val_nonneg(a);
        }
    } else {
        assert(s.subrange(0, i) =~= s);
    }
}

proof fn lemma_dec_val_nonneg(s: Seq<char>)
    requires
        forall|i: int| 0 <= i < s.len() ==> is_digit_char(#[trigger] s[i]),
    ensures
        dec_val(s) >= 0,
    decreases s.len(),
{
    if s.len() > 0 {
        lemma_dec_val_nonneg(s.drop_last());
    }
}

/// Reads a nonempty all-digit string as a `u64`; anything else, or a
/// value that does not fit, is `None`.
pub fn parse_u64(s: &str) -> (r: Option<u64>)
    ensures
        match r {
            Some(v) => all_digits(s@) && dec_val(s@) == v as int,
            None => !all_digits(s@) || dec_val(s@) > u64::MAX,
        },
{
    let sv = str_to_chars(s);
    let n = sv.len();
    if n == 0 {
        return None;
    }
    let mut acc: u64 = 0;
    let mut i: usize = 0;
    proof {
        assert(s@.subrange(0, 0) =~= Seq::<char>::empty());
    }
    while i < n
        invariant
            n == sv@.len(),
            sv@ == s@,
            i <= n,
            forall|j: int| 0 <= j < i ==> is_digit_char(#[trigger] s@[j]),
            acc as int == dec_val(s@.subrange(0, i as int)),
        decreases n - i,
    {
        let c = sv[i];
        let v = c as u32;
        if !(0x30 <= v && v <= 0x39) {
            return None;
        }
        let d: u64 = (v - 0x30) as u64;
        if acc > (u64::MAX - d) / 10 {
            proof {
                assert(s@.subrange(0, i + 1).drop_last() =~= s@.subrange(0, i as int));
                assert(s@.subrange(0, i + 1).last() == s@[i as int]);
                assert(dec_val(s@.subrange(0, i + 1)) == acc as int * 10 + d);
                assert(acc as int * 10 + d > u64::MAX) by {
                    assert(acc as int >= (u64::MAX - d) / 10 + 1);
                };
                if all_digits(s@) {
                    lemma_dec_val_mono(s@, i + 1);
                }
            }
            return None;
        }
        proof {
            assert(s@.subrange(0, i + 1).drop_last() =~= s@.subrange(0, i as int));
            assert(s@.subrange(0, i + 1).last() == s@[i as int]);
        }
        acc = acc * 10 + d;
        i = i + 1;
    }
    proof {
        assert(s@.subrange(0, n as int) =~= s@);
    }
    Some(acc)
}

/// The decimal rendering of `n`, with a leading minus sign when negative.
pub open spec fn int_str(n: int) -> Seq<char> {
    if n >= 0 {
        dec_str(n as nat)
    } else {
        seq!['-'] + dec_str((-n) as nat)
    }
}

/// The decimal rendering of `n`.
pub fn i64_to_string(n: i64) -> (r: String)
    ensures
        r@ == int_str(n as int),
{
    if n >= 0 {
        u64_to_string(n as u64)
    } else {
        // magnitude computed as a u64 so that i64::MIN needs no negation
        let mag: u64 = ((-(n + 1)) as u64) + 1;
        let mut s = String::new();
        push_char(&mut s, '-');
        let d = u64_to_string(mag);
        append_str(&mut s, d.as_str());
        proof {
            assert(Seq::<char>::empty() + seq!['-'] =~= seq!['-']);
        }
        s
    }
}

} // verus!

//! The response optimizer: removes a configured set of field names and
//! all empty-string values from a JSON tree, recursively.
//!
//! `null` values are preserved: "no value" is distinct from "empty
//! string".  Arrays are never filtered or re-ordered.  The exclude set
//! is a set: order and duplicates among the configured names carry no
//! meaning.

use vstd::prelude::*;
use crate::json::{Json, JsonV, jm, jm_arr, jm_obj, lemma_jm_arr_index, lemma_jm_obj_index, lookup};
use crate::text::str_eq;

verus! {

/// The set of character sequences named by a list of strings.
pub open spec fn excl_set(names: Seq<String>) -> Set<Seq<char>> {
    Set::new(|s: Seq<char>| exists|i: int| 0 <= i < names.len() && names[i]@ == s)
}

/// The set of character sequences in a list of sequences.
pub open spec fn names_set(ss: Seq<Seq<char>>) -> Set<Seq<char>> {
    Set::new(|x: Seq<char>| exists|i: int| 0 <= i < ss.len() && ss[i] == x)
}

/// The two set views agree: naming strings or naming their views
/// makes the same set.
pub proof fn lemma_excl_set_views(v: Seq<String>)
    ensures
        excl_set(v) == names_set(crate::text::views_of(v)),
{
    assert forall|x: Seq<char>| excl_set(v).contains(x) == names_set(
        crate::text::views_of(v),
    ).contains(x) by {
        if excl_set(v).contains(x) {
            let i = choose|i: int| 0 <= i < v.len() && v[i]@ == x;
            assert(crate::text::views_of(v)[i] == x);
        }
        if names_set(crate::text::views_of(v)).contains(x) {
            let i = choose|i: int|
                0 <= i < crate::text::views_of(v).len() && crate::text::views_of(v)[i] == x;
            assert(v[i]@ == x);
        }
    }
    assert(excl_set(v) =~= names_set(crate::text::views_of(v)));
}

/// Whether `v` is the empty string value.
pub open spec fn is_empty_string(v: JsonV) -> bool {
    match v {
        JsonV::Str(s) => s.len() == 0,
        _ => false,
    }
}

/// The optimized form of a value: objects lose every field whose key is
/// in `excl` and, when `strip` holds, every field whose value is the
/// empty string; all surviving values are optimized in turn.
pub open spec fn opt_val(v: JsonV, excl: Set<Seq<char>>, strip: bool) -> JsonV
    decreases v,
{
    match v {
        JsonV::Arr(es) => JsonV::Arr(opt_elems(es, excl, strip)),
        JsonV::Obj(fs) => JsonV::Obj(strip_fields(fs, excl, strip)),
        _ => v,
    }
}

/// The optimized forms of an array's elements, in place.
pub open spec fn opt_elems(es: Seq<JsonV>, excl: Set<Seq<char>>, strip: bool) -> Seq<JsonV>
    decreases es,
{
    if es.len() == 0 {
        Seq::empty()
    } else {
        seq![opt_val(es[0], excl, strip)] + opt_elems(es.drop_first(), excl, strip)
    }
}

/// The surviving fields of an object, each with its value optimized.
pub open spec fn strip_fields(
    fs: Seq<(Seq<char>, JsonV)>,
    excl: Set<Seq<char>>,
    strip: bool,
) -> Seq<(Seq<char>, JsonV)>
    decreases fs,
{
    if fs.len() == 0 {
        Seq::empty()
    } else {
        let rest = strip_fields(fs.drop_first(), excl, strip);
        if excl.contains(fs[0].0) || (strip && is_empty_string(fs[0].1)) {
            rest
        } else {
            seq![(fs[0].0, opt_val(fs[0].1, excl, strip))] + rest
        }
    }
}

/// Optimization never turns a value into the empty string, nor the
/// empty string into anything else.
proof fn lemma_opt_keeps_emptiness(v: JsonV, excl: Set<Seq<char>>, strip: bool)
    ensures
        is_empty_string(opt_val(v, excl, strip)) == is_empty_string(v),
{
    match v {
        JsonV::Arr(es) => {},
        JsonV::Obj(fs) => {},
        _ => {},
    }
}

/// Applying the transform twice yields the same tree as applying it
/// once: optimization is idempotent.
pub proof fn lemma_optimize_idempotent(v: JsonV, excl: Set<Seq<char>>, strip: bool)
    ensures
        opt_val(opt_val(v, excl, strip), excl, strip) == opt_val(v, excl, strip),
    decreases v,
{
    match v {
        JsonV::Arr(es) => {
            lemma_opt_elems_idempotent(es, excl, strip);
        },
        JsonV::Obj(fs) => {
            lemma_strip_fields_idempotent(fs, excl, strip);
        },
        _ => {},
    }
}

proof fn lemma_opt_elems_idempotent(es: Seq<JsonV>, excl: Set<Seq<char>>, strip: bool)
    ensures
        opt_elems(opt_elems(es, excl, strip), excl, strip) == opt_elems(es, excl, strip),
    decreases es,
{
    if es.len() == 0 {
        assert(opt_elems(es, excl, strip) =~= Seq::<JsonV>::empty());
    } else {
        let head = opt_val(es[0], excl, strip);
        let tail = opt_elems(es.drop_first(), excl, strip);
        lemma_optimize_idempotent(es[0], excl, strip);
        lemma_opt_elems_idempotent(es.drop_first(), excl, strip);
        let once = seq![head] + tail;
        assert(once.len() > 0);
        assert(once[0] == head);
        assert(once.drop_first() =~= tail);
        assert(opt_elems(once, excl, strip) =~= seq![opt_val(head, excl, strip)] + opt_elems(
            tail,
            excl,
            strip,
        ));
    }
}

proof fn lemma_strip_fields_idempotent(
    fs: Seq<(Seq<char>, JsonV)>,
    excl: Set<Seq<char>>,
    strip: bool,
)
    ensures
        strip_fields(strip_fields(fs, excl, strip), excl, strip) == strip_fields(fs, excl, strip),
    decreases fs,
{
    if fs.len() == 0 {
        assert(strip_fields(fs, excl, strip) =~= Seq::<(Seq<char>, JsonV)>::empty());
    } else {
        let rest = strip_fields(fs.drop_first(), excl, strip);
        lemma_strip_fields_idempotent(fs.drop_first(), excl, strip);
        if excl.contains(fs[0].0) || (strip && is_empty_string(fs[0].1)) {
        } else {
            let head = (fs[0].0, opt_val(fs[0].1, excl, strip));
            lemma_optimize_idempotent(fs[0].1, excl, strip);
            lemma_opt_keeps_emptiness(fs[0].1, excl, strip);
            let once = seq![head] + rest;
            assert(once[0] == head);
            assert(once.drop_first() =~= rest);
            assert(strip_fields(once, excl, strip) =~= seq![
                (head.0, opt_val(head.1, excl, strip)),
            ] + strip_fields(rest, excl, strip));
        }
    }
}

/// A tree is clean when no object key at any depth lies in `excl` and,
/// when `strip` holds, no field value at any depth is the empty string.
pub open spec fn clean(v: JsonV, excl: Set<Seq<char>>, strip: bool) -> bool
    decreases v,
{
    match v {
        JsonV::Arr(es) => clean_elems(es, excl, strip),
        JsonV::Obj(fs) => clean_fields(fs, excl, strip),
        _ => true,
    }
}

pub open spec fn clean_elems(es: Seq<JsonV>, excl: Set<Seq<char>>, strip: bool) -> bool
    decreases es,
{
    if es.len() == 0 {
        true
    } else {
        clean(es[0], excl, strip) && clean_elems(es.drop_first(), excl, strip)
    }
}

pub open spec fn clean_fields(fs: Seq<(Seq<char>, JsonV)>, excl: Set<Seq<char>>, strip: bool) -> bool
    decreases fs,
{
    if fs.len() == 0 {
        true
    } else {
        &&& !excl.contains(fs[0].0)
        &&& !(strip && is_empty_string(fs[0].1))
        &&& clean(fs[0].1, excl, strip)
        &&& clean_fields(fs.drop_first(), excl, strip)
    }
}

/// The optimized tree is clean: no excluded key and no empty-string
/// field survives at any depth, while everything else — `null` values
/// included — is kept in place.
pub proof fn lemma_optimize_clean(v: JsonV, excl: Set<Seq<char>>, strip: bool)
    ensures
        clean(opt_val(v, excl, strip), excl, strip),
    decreases v,
{
    match v {
        JsonV::Arr(es) => {
            lemma_opt_elems_clean(es, excl, strip);
        },
        JsonV::Obj(fs) => {
            lemma_strip_fields_clean(fs, excl, strip);
        },
        _ => {},
    }
}

proof fn lemma_opt_elems_clean(es: Seq<JsonV>, excl: Set<Seq<char>>, strip: bool)
    ensures
        clean_elems(opt_elems(es, excl, strip), excl, strip),
    decreases es,
{
    if es.len() == 0 {
    } else {
        lemma_optimize_clean(es[0], excl, strip);
        lemma_opt_elems_clean(es.drop_first(), excl, strip);
        let once = seq![opt_val(es[0], excl, strip)] + opt_elems(es.drop_first(), excl, strip);
        assert(once[0] == opt_val(es[0], excl, strip));
        assert(once.drop_first() =~= opt_elems(es.drop_first(), excl, strip));
    }
}

proof fn lemma_strip_fields_clean(fs: Seq<(Seq<char>, JsonV)>, excl: Set<Seq<char>>, strip: bool)
    ensures
        clean_fields(strip_fields(fs, excl, strip), excl, strip),
    decreases fs,
{
    if fs.len() == 0 {
    } else {
        lemma_strip_fields_clean(fs.drop_first(), excl, strip);
        let rest = strip_fields(fs.drop_first(), excl, strip);
        if excl.contains(fs[0].0) || (strip && is_empty_string(fs[0].1)) {
        } else {
            lemma_optimize_clean(fs[0].1, excl, strip);
            lemma_opt_keeps_emptiness(fs[0].1, excl, strip);
            let head = (fs[0].0, opt_val(fs[0].1, excl, strip));
            let once = seq![head] + rest;
            assert(once[0] == head);
            assert(once.drop_first() =~= rest);
        }
    }
}

/// No over-deletion: a field whose key is not excluded and whose value
/// is not the empty string survives, with its value optimized, at the
/// same relative position among the survivors.
pub proof fn lemma_optimize_retains(
    fs: Seq<(Seq<char>, JsonV)>,
    excl: Set<Seq<char>>,
    strip: bool,
    i: int,
)
    requires
        0 <= i < fs.len(),
        !excl.contains(fs[i].0),
        !(strip && is_empty_string(fs[i].1)),
    ensures
        strip_fields(fs, excl, strip).contains((fs[i].0, opt_val(fs[i].1, excl, strip))),
    decreases fs,
{
    let rest = strip_fields(fs.drop_first(), excl, strip);
    if i == 0 {
        let head = (fs[0].0, opt_val(fs[0].1, excl, strip));
        let once = seq![head] + rest;
        assert(once[0] == head);
    } else {
        lemma_optimize_retains(fs.drop_first(), excl, strip, i - 1);
        let p = (fs[i].0, opt_val(fs[i].1, excl, strip));
        let j = choose|j: int| 0 <= j < rest.len() && rest[j] == p;
        if excl.contains(fs[0].0) || (strip && is_empty_string(fs[0].1)) {
        } else {
            let head = (fs[0].0, opt_val(fs[0].1, excl, strip));
            assert((seq![head] + rest)[j + 1] == p);
        }
    }
}

/// A `null` field with an unexcluded key always survives optimization.
pub proof fn lemma_optimize_preserves_null(
    fs: Seq<(Seq<char>, JsonV)>,
    excl: Set<Seq<char>>,
    strip: bool,
    i: int,
)
    requires
        0 <= i < fs.len(),
        fs[i].1 == JsonV::Null,
        !excl.contains(fs[i].0),
    ensures
        strip_fields(fs, excl, strip).contains((fs[i].0, JsonV::Null)),
{
    lemma_optimize_retains(fs, excl, strip, i);
}

/// Whether `v` holds a `null` member at the end of the object path
/// `path`: each path element names a member of the object reached so
/// far, and the last one is bound to `null`.
pub open spec fn has_null_at(v: JsonV, path: Seq<Seq<char>>) -> bool
    decreases path.len(),
{
    match v {
        JsonV::Obj(fs) => if path.len() == 0 {
            false
        } else if path.len() == 1 {
            lookup(fs, path[0]) == Option::Some(JsonV::Null)
        } else {
            match lookup(fs, path[0]) {
                Option::Some(child) => has_null_at(child, path.drop_first()),
                Option::None => false,
            }
        },
        _ => false,
    }
}

/// A surviving field keeps its binding: looking an unexcluded,
/// non-empty-string member up after optimization finds the optimized
/// value of what was there before.
proof fn lemma_strip_fields_lookup(
    fs: Seq<(Seq<char>, JsonV)>,
    k: Seq<char>,
    excl: Set<Seq<char>>,
    strip: bool,
)
    requires
        lookup(fs, k) is Some,
        !excl.contains(k),
        !(strip && is_empty_string(lookup(fs, k)->Some_0)),
    ensures
        lookup(strip_fields(fs, excl, strip), k) == Option::Some(
            opt_val(lookup(fs, k)->Some_0, excl, strip),
        ),
    decreases fs,
{
    let rest = strip_fields(fs.drop_first(), excl, strip);
    if fs[0].0 == k {
        let head = (fs[0].0, opt_val(fs[0].1, excl, strip));
        let once = seq![head] + rest;
        assert(once[0] == head);
    } else {
        lemma_strip_fields_lookup(fs.drop_first(), k, excl, strip);
        if excl.contains(fs[0].0) || (strip && is_empty_string(fs[0].1)) {
        } else {
            let head = (fs[0].0, opt_val(fs[0].1, excl, strip));
            let once = seq![head] + rest;
            assert(once[0] == head);
            assert(once.drop_first() =~= rest);
        }
    }
}

/// A `null` member survives at any depth reached through unexcluded
/// keys: optimization removes neither it nor anything on its path.
/// (Under an excluded ancestor the whole subtree goes, as the
/// transform requires, so the path condition is the exact premise.)
pub proof fn lemma_optimize_preserves_null_at_depth(
    v: JsonV,
    excl: Set<Seq<char>>,
    strip: bool,
    path: Seq<Seq<char>>,
)
    requires
        has_null_at(v, path),
        forall|i: int| 0 <= i < path.len() ==> !excl.contains(#[trigger] path[i]),
    ensures
        has_null_at(opt_val(v, excl, strip), path),
    decreases path.len(),
{
    let fs = v->Obj_0;
    if path.len() == 1 {
        lemma_strip_fields_lookup(fs, path[0], excl, strip);
    } else {
        let child = lookup(fs, path[0])->Some_0;
        assert(has_null_at(child, path.drop_first()));
        assert(child is Obj);
        lemma_strip_fields_lookup(fs, path[0], excl, strip);
        assert forall|i: int| 0 <= i < path.drop_first().len() implies !excl.contains(
            #[trigger] path.drop_first()[i],
        ) by {
            assert(path.drop_first()[i] == path[i + 1]);
        }
        lemma_optimize_preserves_null_at_depth(child, excl, strip, path.drop_first());
    }
}

/// The exclude set alone decides the outcome: two configurations that
/// name the same set of fields optimize every tree identically.
pub proof fn lemma_optimize_order_independent(
    v: JsonV,
    a: Seq<String>,
    b: Seq<String>,
    strip: bool,
)
    requires
        excl_set(a) == excl_set(b),
    ensures
        opt_val(v, excl_set(a), strip) == opt_val(v, excl_set(b), strip),
{
}

proof fn lemma_opt_elems_app(a: Seq<JsonV>, b: Seq<JsonV>, excl: Set<Seq<char>>, strip: bool)
    ensures
        opt_elems(a + b, excl, strip) == opt_elems(a, excl, strip) + opt_elems(b, excl, strip),
    decreases a,
{
    if a.len() == 0 {
        assert(a + b =~= b);
        assert(Seq::<JsonV>::empty() + opt_elems(b, excl, strip) =~= opt_elems(b, excl, strip));
    } else {
        lemma_opt_elems_app(a.drop_first(), b, excl, strip);
        assert((a + b).drop_first() =~= a.drop_first() + b);
        assert((a + b)[0] == a[0]);
        assert(seq![opt_val(a[0], excl, strip)] + (opt_elems(a.drop_first(), excl, strip)
            + opt_elems(b, excl, strip)) =~= (seq![opt_val(a[0], excl, strip)] + opt_elems(
            a.drop_first(),
            excl,
            strip,
        )) + opt_elems(b, excl, strip));
    }
}

proof fn lemma_strip_fields_app(
    a: Seq<(Seq<char>, JsonV)>,
    b: Seq<(Seq<char>, JsonV)>,
    excl: Set<Seq<char>>,
    strip: bool,
)
    ensures
        strip_fields(a + b, excl, strip) == strip_fields(a, excl, strip) + strip_fields(
            b,
            excl,
            strip,
        ),
    decreases a,
{
    if a.len() == 0 {
        assert(a + b =~= b);
        assert(Seq::<(Seq<char>, JsonV)>::empty() + strip_fields(b, excl, strip) =~= strip_fields(
            b,
            excl,
            strip,
        ));
    } else {
        lemma_strip_fields_app(a.drop_first(), b, excl, strip);
        assert((a + b).drop_first() =~= a.drop_first() + b);
        assert((a + b)[0] == a[0]);
        if excl.contains(a[0].0) || (strip && is_empty_string(a[0].1)) {
        } else {
            assert(seq![(a[0].0, opt_val(a[0].1, excl, strip))] + (strip_fields(
                a.drop_first(),
                excl,
                strip,
            ) + strip_fields(b, excl, strip)) =~= (seq![(a[0].0, opt_val(a[0].1, excl, strip))]
                + strip_fields(a.drop_first(), excl, strip)) + strip_fields(b, excl, strip));
        }
    }
}

/// Whether `name` is one of the configured names.
fn contains_name(names: &Vec<String>, name: &str) -> (r: bool)
    ensures
        r == excl_set(names@).contains(name@),
{
    let mut i: usize = 0;
    while i < names.len()
        invariant
            i <= names@.len(),
            forall|j: int| 0 <= j < i ==> names@[j]@ != name@,
        decreases names@.len() - i,
    {
        if str_eq(names[i].as_str(), name) {
            assert(excl_set(names@).contains(name@));
            return true;
        }
        i = i + 1;
    }
    assert(!excl_set(names@).contains(name@));
    false
}

/// Whether the value is the empty string.
fn is_empty_str(v: &Json) -> (r: bool)
    ensures
        r == is_empty_string(jm(*v)),
{
    match v {
        Json::Str(s) => s.as_str().is_empty(),
        _ => false,
    }
}

/// The optimized copy of a value.
#[verifier::loop_isolation(false)]
pub fn optimize_value(v: &Json, excl: &Vec<String>, strip: bool) -> (r: Json)
    ensures
        jm(r) == opt_val(jm(*v), excl_set(excl@), strip),
    decreases v,
{
    let ghost e = excl_set(excl@);
    match v {
        Json::Null => Json::Null,
        Json::Bool(b) => Json::Bool(*b),
        Json::Num(s) => Json::Num(s.clone()),
        Json::Str(s) => Json::Str(s.clone()),
        Json::Arr(es) => {
            let ghost t = jm_arr(es@);
            proof {
                lemma_jm_arr_index(es@);
            }
            let mut out: Vec<Json> = Vec::new();
            let mut i: usize = 0;
            proof {
                assert(t.subrange(0, 0) =~= Seq::<JsonV>::empty());
            }
            while i < es.len()
                invariant
                    i <= es@.len(),
                    t == jm_arr(es@),
                    t.len() == es@.len(),
                    forall|j: int| 0 <= j < es@.len() ==> t[j] == jm(es@[j]),
                    jm_arr(out@) == opt_elems(t.subrange(0, i as int), e, strip),
                    e == excl_set(excl@),
                decreases es@.len() - i,
            {
                let ghost out0 = out@;
                proof {
                    assert(decreases_to!(*v => v->Arr_0));
                    assert(decreases_to!(es@ => es@[i as int]));
                    assert(decreases_to!(*es => es@));
                    assert(decreases_to!(*v => es@[i as int]));
                }
                let r = optimize_value(&es[i], excl, strip);
                out.push(r);
                proof {
                    lemma_jm_arr_index(out@);
                    lemma_jm_arr_index(out0);
                    assert(jm_arr(out@) =~= jm_arr(out0) + seq![jm(r)]);
                    lemma_opt_elems_app(t.subrange(0, i as int), seq![t[i as int]], e, strip);
                    assert(seq![t[i as int]].drop_first() =~= Seq::<JsonV>::empty());
                    assert(opt_elems(Seq::<JsonV>::empty(), e, strip) == Seq::<JsonV>::empty());
                    assert(opt_elems(seq![t[i as int]], e, strip) =~= seq![
                        opt_val(t[i as int], e, strip),
                    ]);
                    assert(t.subrange(0, i + 1) =~= t.subrange(0, i as int) + seq![t[i as int]]);
                }
                i = i + 1;
            }
            proof {
                assert(t.subrange(0, t.len() as int) =~= t);
            }
            Json::Arr(out)
        },
        Json::Obj(fs) => {
            let ghost t = jm_obj(fs@);
            proof {
                lemma_jm_obj_index(fs@);
            }
            let mut out: Vec<(String, Json)> = Vec::new();
            let mut i: usize = 0;
            proof {
                assert(t.subrange(0, 0) =~= Seq::<(Seq<char>, JsonV)>::empty());
            }
            while i < fs.len()
                invariant
                    i <= fs@.len(),
                    t == jm_obj(fs@),
                    t.len() == fs@.len(),
                    forall|j: int| 0 <= j < fs@.len() ==> t[j] == (fs@[j].0@, jm(fs@[j].1)),
                    jm_obj(out@) == strip_fields(t.subrange(0, i as int), e, strip),
                    e == excl_set(excl@),
                decreases fs@.len() - i,
            {
                let ghost out0 = out@;
                let pair = &fs[i];
                let excluded = contains_name(excl, pair.0.as_str());
                let emptied = strip && is_empty_str(&pair.1);
                proof {
                    lemma_strip_fields_app(t.subrange(0, i as int), seq![t[i as int]], e, strip);
                    assert(t.subrange(0, i + 1) =~= t.subrange(0, i as int) + seq![t[i as int]]);
                }
                if !excluded && !emptied {
                    proof {
                        assert(decreases_to!(*v => v->Obj_0));
                        assert(decreases_to!(*fs => fs@));
                        assert(decreases_to!(fs@ => fs@[i as int]));
                        assert(decreases_to!(fs@[i as int] => fs@[i as int].1));
                        assert(decreases_to!(*v => fs@[i as int].1));
                    }
                    let r = optimize_value(&fs[i].1, excl, strip);
                    let k = fs[i].0.clone();
                    out.push((k, r));
                    proof {
                        lemma_jm_obj_index(out@);
                        lemma_jm_obj_index(out0);
                        assert(jm_obj(out@) =~= jm_obj(out0) + seq![(fs@[i as int].0@, jm(r))]);
                        assert(seq![t[i as int]].drop_first() =~= Seq::<(Seq<char>, JsonV)>::empty());
                        assert(strip_fields(Seq::<(Seq<char>, JsonV)>::empty(), e, strip) == Seq::<
                            (Seq<char>, JsonV),
                        >::empty());
                        assert(strip_fields(seq![t[i as int]], e, strip) =~= seq![
                            (t[i as int].0, opt_val(t[i as int].1, e, strip)),
                        ]);
                    }
                } else {
                    proof {
                        assert(seq![t[i as int]].drop_first() =~= Seq::<(Seq<char>, JsonV)>::empty());
                        assert(strip_fields(Seq::<(Seq<char>, JsonV)>::empty(), e, strip) == Seq::<
                            (Seq<char>, JsonV),
                        >::empty());
                        assert(strip_fields(seq![t[i as int]], e, strip) =~= Seq::<
                            (Seq<char>, JsonV),
                        >::empty());
                        assert(jm_obj(out@) + Seq::<(Seq<char>, JsonV)>::empty() =~= jm_obj(out@));
                    }
                }
                i = i + 1;
            }
            proof {
                assert(t.subrange(0, t.len() as int) =~= t);
            }
            Json::Obj(out)
        },
    }
}

/// The fields excluded by default: URLs of avatars and icons,
/// self-referencing links, expansion metadata, fixed-value flags and
/// duplicate or always-empty metadata, none of which carry meaning for
/// a caller reading the response.
pub open spec fn default_exclude_fields_spec() -> Seq<Seq<char>> {
    seq![
        "avatarUrls"@,
        "iconUrl"@,
        "profilePicture"@,
        "icon"@,
        "self"@,
        "expand"@,
        "avatarId"@,
        "accountType"@,
        "projectTypeKey"@,
        "simplified"@,
        "_expandable"@,
        "childTypes"@,
        "macroRenderedOutput"@,
        "restrictions"@,
        "breadcrumbs"@,
        "entityType"@,
        "iconCssClass"@,
        "colorName"@,
        "hasScreen"@,
        "isAvailable"@,
        "isConditional"@,
        "isGlobal"@,
        "isInitial"@,
        "isLooped"@,
        "friendlyLastModified"@,
        "editui"@,
        "edituiv2"@,
    ]
}

/// The default exclude list, as strings.
pub fn default_exclude_fields() -> (r: Vec<String>)
    ensures
        crate::text::views_of(r@) == default_exclude_fields_spec(),
{
    let r: Vec<String> = vec![
        "avatarUrls".to_owned(),
        "iconUrl".to_owned(),
        "profilePicture".to_owned(),
        "icon".to_owned(),
        "self".to_owned(),
        "expand".to_owned(),
        "avatarId".to_owned(),
        "accountType".to_owned(),
        "projectTypeKey".to_owned(),
        "simplified".to_owned(),
        "_expandable".to_owned(),
        "childTypes".to_owned(),
        "macroRenderedOutput".to_owned(),
        "restrictions".to_owned(),
        "breadcrumbs".to_owned(),
        "entityType".to_owned(),
        "iconCssClass".to_owned(),
        "colorName".to_owned(),
        "hasScreen".to_owned(),
        "isAvailable".to_owned(),
        "isConditional".to_owned(),
        "isGlobal".to_owned(),
        "isInitial".to_owned(),
        "isLooped".to_owned(),
        "friendlyLastModified".to_owned(),
        "editui".to_owned(),
        "edituiv2".to_owned(),
    ];
    proof {
        assert(crate::text::views_of(r@) =~= default_exclude_fields_spec());
    }
    r
}

/// Removes noise fields and empty strings from backend responses.
pub struct ResponseOptimizer {
    pub exclude_fields: Vec<String>,
    pub remove_empty_strings: bool,
}

impl ResponseOptimizer {
    /// An optimizer using the configured exclude list, or the default
    /// list when none is configured; empty strings are always stripped.
    pub fn from_config(config: &crate::config::Config) -> (r: Self)
        ensures
            match config.response_exclude_fields {
                Option::Some(fields) => r.exclude_fields@ == fields@,
                Option::None => crate::text::views_of(r.exclude_fields@)
                    == default_exclude_fields_spec(),
            },
            r.remove_empty_strings,
    {
        let exclude_fields = match &config.response_exclude_fields {
            Some(fields) => crate::confluence::field_filtering::clone_strings(fields),
            None => default_exclude_fields(),
        };
        ResponseOptimizer { exclude_fields, remove_empty_strings: true }
    }

    /// An optimizer with the given exclusion rules; empty strings are
    /// always stripped.
    pub fn new_with_rules(exclude_fields: Vec<String>) -> (r: Self)
        ensures
            r.exclude_fields@ == exclude_fields@,
            r.remove_empty_strings,
    {
        ResponseOptimizer { exclude_fields, remove_empty_strings: true }
    }

    /// Optimizes the value in place.  The transform is total, so the
    /// result is always `Ok`; the `Result` keeps the caller's shape.
    pub fn optimize(&self, value: &mut Json) -> (r: Result<(), String>)
        ensures
            r is Ok,
            jm(*final(value)) == opt_val(
                jm(*old(value)),
                excl_set(self.exclude_fields@),
                self.remove_empty_strings,
            ),
    {
        let nv = optimize_value(value, &self.exclude_fields, self.remove_empty_strings);
        *value = nv;
        Ok(())
    }
}

} // verus!

//! The library's JSON value tree and its mathematical model.
//!
//! Numbers are carried as their decimal literal text, so a value of any
//! magnitude or precision survives a round trip through the tree without
//! floating-point arithmetic.  Objects keep their fields in insertion
//! order; key order carries no meaning.

use vstd::prelude::*;

verus! {

/// A JSON value as the library computes on it.
#[derive(Debug)]
pub enum Json {
    Null,
    Bool(bool),
    /// The number's literal text, e.g. `"-12.5e3"`.
    Num(String),
    Str(String),
    Arr(Vec<Json>),
    Obj(Vec<(String, Json)>),
}

/// The mathematical model of a JSON value: the same tree over `Seq`.
#[verifier::ext_equal]
pub enum JsonV {
    Null,
    Bool(bool),
    Num(Seq<char>),
    Str(Seq<char>),
    Arr(Seq<JsonV>),
    Obj(Seq<(Seq<char>, JsonV)>),
}

/// The model of a value: the tree with every string taken to its
/// character sequence.
pub open spec fn jm(j: Json) -> JsonV
    decreases j,
{
    match j {
        Json::Null => JsonV::Null,
        Json::Bool(b) => JsonV::Bool(b),
        Json::Num(s) => JsonV::Num(s@),
        Json::Str(s) => JsonV::Str(s@),
        Json::Arr(es) => JsonV::Arr(jm_arr(es@)),
        Json::Obj(fs) => JsonV::Obj(jm_obj(fs@)),
    }
}

/// The models of the elements of an array, in order.
pub open spec fn jm_arr(es: Seq<Json>) -> Seq<JsonV>
    decreases es,
{
    if es.len() == 0 {
        Seq::empty()
    } else {
        seq![jm(es[0])] + jm_arr(es.drop_first())
    }
}

/// The models of the fields of an object, in order.
pub open spec fn jm_obj(fs: Seq<(String, Json)>) -> Seq<(Seq<char>, JsonV)>
    decreases fs,
{
    if fs.len() == 0 {
        Seq::empty()
    } else {
        seq![(fs[0].0@, jm(fs[0].1))] + jm_obj(fs.drop_first())
    }
}

/// Element-wise characterization of `jm_arr`.
pub proof fn lemma_jm_arr_index(s: Seq<Json>)
    ensures
        jm_arr(s).len() == s.len(),
        forall|i: int| 0 <= i < s.len() ==> jm_arr(s)[i] == jm(s[i]),
    decreases s,
{
    if s.len() > 0 {
        lemma_jm_arr_index(s.drop_first());
    }
}

/// Element-wise characterization of `jm_obj`.
pub proof fn lemma_jm_obj_index(s: Seq<(String, Json)>)
    ensures
        jm_obj(s).len() == s.len(),
        forall|i: int| 0 <= i < s.len() ==> jm_obj(s)[i] == (s[i].0@, jm(s[i].1)),
    decreases s,
{
    if s.len() > 0 {
        lemma_jm_obj_index(s.drop_first());
    }
}

/// The first value bound to key `k`, if any.
pub open spec fn lookup(fs: Seq<(Seq<char>, JsonV)>, k: Seq<char>) -> Option<JsonV>
    decreases fs.len(),
{
    if fs.len() == 0 {
        Option::None
    } else if fs[0].0 == k {
        Option::Some(fs[0].1)
    } else {
        lookup(fs.drop_first(), k)
    }
}

impl Json {
    /// A deep copy with the same model.
    #[verifier::loop_isolation(false)]
    pub fn duplicate(&self) -> (r: Json)
        ensures
            jm(r) == jm(*self),
        decreases self,
    {
        match self {
            Json::Null => Json::Null,
            Json::Bool(b) => Json::Bool(*b),
            Json::Num(s) => Json::Num(s.clone()),
            Json::Str(s) => Json::Str(s.clone()),
            Json::Arr(es) => {
                let ghost t = jm_arr(es@);
                proof {
                    lemma_jm_arr_index(es@);
                }
                let mut out: Vec<Json> = Vec::new();
                let mut i: usize = 0;
                proof {
                    assert(t.subrange(0, 0) =~= Seq::<JsonV>::empty());
                    assert(jm_arr(out@) =~= t.subrange(0, 0));
                }
                while i < es.len()
                    invariant
                        i <= es@.len(),
                        jm_arr(out@) == t.subrange(0, i as int),
                    decreases es@.len() - i,
                {
                    let ghost out0 = out@;
                    let e = es[i].duplicate();
                    out.push(e);
                    proof {
                        lemma_jm_arr_index(out@);
                        lemma_jm_arr_index(out0);
                        assert(jm_arr(out@) =~= jm_arr(out0).push(t[i as int]));
                        assert(t.subrange(0, i as int).push(t[i as int]) =~= t.subrange(0, i + 1));
                    }
                    i = i + 1;
                }
                proof {
                    assert(t.subrange(0, t.len() as int) =~= t);
                }
                Json::Arr(out)
            },
            Json::Obj(fs) => {
                let ghost t = jm_obj(fs@);
                proof {
                    lemma_jm_obj_index(fs@);
                }
                let mut out: Vec<(String, Json)> = Vec::new();
                let mut i: usize = 0;
                proof {
                    assert(t.subrange(0, 0) =~= Seq::<(Seq<char>, JsonV)>::empty());
                    assert(jm_obj(out@) =~= t.subrange(0, 0));
                }
                while i < fs.len()
                    invariant
                        i <= fs@.len(),
                        jm_obj(out@) == t.subrange(0, i as int),
                    decreases fs@.len() - i,
                {
                    let ghost out0 = out@;
                    proof {
                        assert(decreases_to!(fs@[i as int] => fs@[i as int].1));
                    }
                    let e = fs[i].1.duplicate();
                    let k = fs[i].0.clone();
                    out.push((k, e));
                    proof {
                        lemma_jm_obj_index(out@);
                        lemma_jm_obj_index(out0);
                        assert(jm_obj(out@) =~= jm_obj(out0).push(t[i as int]));
                        assert(t.subrange(0, i as int).push(t[i as int]) =~= t.subrange(0, i + 1));
                    }
                    i = i + 1;
                }
                proof {
                    assert(t.subrange(0, t.len() as int) =~= t);
                }
                Json::Obj(out)
            },
        }
    }
}

/// A lookup hit names its index: `lookup` finds the first binding.
pub proof fn lemma_lookup_index(fs: Seq<(Seq<char>, JsonV)>, k: Seq<char>, i: int)
    requires
        0 <= i < fs.len(),
        fs[i].0 == k,
        forall|j: int| 0 <= j < i ==> (#[trigger] fs[j].0) != k,
    ensures
        lookup(fs, k) == Option::Some(fs[i].1),
    decreases fs.len(),
{
    if i > 0 {
        lemma_lookup_index(fs.drop_first(), k, i - 1);
    }
}

/// A miss on every index is a miss for `lookup`.
pub proof fn lemma_lookup_none(fs: Seq<(Seq<char>, JsonV)>, k: Seq<char>)
    requires
        forall|j: int| 0 <= j < fs.len() ==> (#[trigger] fs[j].0) != k,
    ensures
        lookup(fs, k) is None,
    decreases fs.len(),
{
    if fs.len() > 0 {
        lemma_lookup_none(fs.drop_first(), k);
    }
}

/// Finds the first binding of `key` in an object's fields.
#[verifier::loop_isolation(false)]
pub fn obj_get<'a>(fs: &'a Vec<(String, Json)>, key: &str) -> (r: Option<&'a Json>)
    ensures
        match r {
            Some(v) => lookup(jm_obj(fs@), key@) == Option::Some(jm(*v)),
            None => lookup(jm_obj(fs@), key@) is None,
        },
{
    proof {
        lemma_jm_obj_index(fs@);
    }
    let mut i: usize = 0;
    while i < fs.len()
        invariant
            i <= fs@.len(),
            forall|j: int| 0 <= j < i ==> fs@[j].0@ != key@,
        decreases fs@.len() - i,
    {
        if crate::text::str_eq(fs[i].0.as_str(), key) {
            proof {
                assert forall|j: int| 0 <= j < i implies (#[trigger] jm_obj(fs@)[j].0)
                    != key@ by {
                    assert(jm_obj(fs@)[j].0 == fs@[j].0@);
                }
                lemma_lookup_index(jm_obj(fs@), key@, i as int);
            }
            return Some(&fs[i].1);
        }
        i = i + 1;
    }
    proof {
        assert forall|j: int| 0 <= j < jm_obj(fs@).len() implies (#[trigger] jm_obj(fs@)[j].0)
            != key@ by {
            assert(jm_obj(fs@)[j].0 == fs@[j].0@);
        }
        lemma_lookup_none(jm_obj(fs@), key@);
    }
    None
}

} // verus!

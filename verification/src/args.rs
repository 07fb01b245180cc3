//! Reading tool-call arguments out of a JSON value, the way a handler
//! sees them: a missing member, a member of the wrong type, and a
//! non-object argument value all read as "not there".

use vstd::prelude::*;
use crate::json::{Json, JsonV, jm, jm_obj, lookup, obj_get};
use crate::text::{all_digits, dec_val, parse_u64};

verus! {

/// The member of an object value, `Null` when absent or when the
/// value is no object.
pub open spec fn index_of(v: JsonV, k: Seq<char>) -> JsonV {
    match v {
        JsonV::Obj(fs) => match lookup(fs, k) {
            Option::Some(x) => x,
            Option::None => JsonV::Null,
        },
        _ => JsonV::Null,
    }
}

/// The string member `k` of `args`, if there is one.
pub open spec fn str_arg(args: JsonV, k: Seq<char>) -> Option<Seq<char>> {
    match index_of(args, k) {
        JsonV::Str(s) => Option::Some(s),
        _ => Option::None,
    }
}

/// The boolean member `k` of `args`, if there is one.
pub open spec fn bool_arg(args: JsonV, k: Seq<char>) -> Option<bool> {
    match index_of(args, k) {
        JsonV::Bool(b) => Option::Some(b),
        _ => Option::None,
    }
}

/// The unsigned value of a number member, when its literal is a plain
/// integer that fits.
pub open spec fn u64_arg(args: JsonV, k: Seq<char>) -> Option<int> {
    match index_of(args, k) {
        JsonV::Num(lit) => if all_digits(lit) && dec_val(lit) <= u64::MAX {
            Option::Some(dec_val(lit))
        } else {
            Option::None
        },
        _ => Option::None,
    }
}

/// The string elements of an array member, in order, non-strings
/// skipped; `None` when the member is no array.
pub open spec fn str_list_arg(args: JsonV, k: Seq<char>) -> Option<Seq<Seq<char>>> {
    match index_of(args, k) {
        JsonV::Arr(es) => Option::Some(strs_of(es)),
        _ => Option::None,
    }
}

/// The string elements of a value sequence, in order.
pub open spec fn strs_of(es: Seq<JsonV>) -> Seq<Seq<char>>
    decreases es.len(),
{
    if es.len() == 0 {
        Seq::empty()
    } else {
        (match es[0] {
            JsonV::Str(s) => seq![s],
            _ => Seq::<Seq<char>>::empty(),
        }) + strs_of(es.drop_first())
    }
}

/// The member of `args` named `k`, by reference.
pub fn get_member<'a>(args: &'a Json, k: &str) -> (r: Option<&'a Json>)
    ensures
        match r {
            Some(v) => jm(*v) == index_of(jm(*args), k@),
            None => index_of(jm(*args), k@) is Null,
        },
{
    match args {
        Json::Obj(fs) => match obj_get(fs, k) {
            Some(v) => Some(v),
            None => None,
        },
        _ => None,
    }
}

/// The string member `k` of `args`, if there is one.
pub fn get_str_arg(args: &Json, k: &str) -> (r: Option<String>)
    ensures
        match r {
            Some(s) => str_arg(jm(*args), k@) == Option::Some(s@),
            None => str_arg(jm(*args), k@) is None,
        },
{
    match get_member(args, k) {
        Some(Json::Str(s)) => Some(s.clone()),
        _ => None,
    }
}

/// The boolean member `k` of `args`, if there is one.
pub fn get_bool_arg(args: &Json, k: &str) -> (r: Option<bool>)
    ensures
        r == bool_arg(jm(*args), k@),
{
    match get_member(args, k) {
        Some(Json::Bool(b)) => Some(*b),
        _ => None,
    }
}

/// The unsigned number member `k` of `args`, or `default` when there
/// is none.
pub fn get_u64_arg_or(args: &Json, k: &str, default: u64) -> (r: u64)
    ensures
        r as int == match u64_arg(jm(*args), k@) {
            Option::Some(v) => v,
            Option::None => default as int,
        },
{
    match get_member(args, k) {
        Some(Json::Num(lit)) => match parse_u64(lit.as_str()) {
            Some(v) => v,
            None => default,
        },
        _ => default,
    }
}

/// The string elements of the array member `k` of `args`.
pub fn get_str_list_arg(args: &Json, k: &str) -> (r: Option<Vec<String>>)
    ensures
        match r {
            Some(v) => str_list_arg(jm(*args), k@) == Option::Some(crate::text::views_of(v@)),
            None => str_list_arg(jm(*args), k@) is None,
        },
{
    let es = match get_member(args, k) {
        Some(Json::Arr(es)) => es,
        _ => {
            return None;
        },
    };
    let ghost t = crate::json::jm_arr(es@);
    proof {
        crate::json::lemma_jm_arr_index(es@);
    }
    let mut out: Vec<String> = Vec::new();
    let mut i: usize = 0;
    proof {
        assert(t.subrange(0, 0) =~= Seq::<JsonV>::empty());
        assert(crate::text::views_of(out@) =~= strs_of(t.subrange(0, 0)));
    }
    while i < es.len()
        invariant
            i <= es@.len(),
            t == crate::json::jm_arr(es@),
            t.len() == es@.len(),
            forall|j: int| 0 <= j < es@.len() ==> t[j] == jm(es@[j]),
            crate::text::views_of(out@) == strs_of(t.subrange(0, i as int)),
        decreases es@.len() - i,
    {
        let ghost out0 = out@;
        proof {
            lemma_strs_of_app(t.subrange(0, i as int), seq![t[i as int]]);
            assert(t.subrange(0, i as int) + seq![t[i as int]] =~= t.subrange(0, i + 1));
            assert(seq![t[i as int]].drop_first() =~= Seq::<JsonV>::empty());
            assert(strs_of(Seq::<JsonV>::empty()) == Seq::<Seq<char>>::empty());
        }
        match &es[i] {
            Json::Str(s) => {
                out.push(s.clone());
                proof {
                    assert(crate::text::views_of(out@) =~= crate::text::views_of(out0).push(
                        es@[i as int]->Str_0@,
                    ));
                    assert(strs_of(seq![t[i as int]]) =~= seq![es@[i as int]->Str_0@]);
                    assert(crate::text::views_of(out0).push(es@[i as int]->Str_0@)
                        =~= crate::text::views_of(out0) + strs_of(seq![t[i as int]]));
                }
            },
            _ => {
                proof {
                    assert(strs_of(seq![t[i as int]]) =~= Seq::<Seq<char>>::empty());
                    assert(crate::text::views_of(out@) + Seq::<Seq<char>>::empty()
                        =~= crate::text::views_of(out@));
                }
            },
        }
        i = i + 1;
    }
    proof {
        assert(t.subrange(0, t.len() as int) =~= t);
    }
    Some(out)
}

proof fn lemma_strs_of_app(a: Seq<JsonV>, b: Seq<JsonV>)
    ensures
        strs_of(a + b) == strs_of(a) + strs_of(b),
    decreases a.len(),
{
    if a.len() == 0 {
        assert(a + b =~= b);
        assert(Seq::<Seq<char>>::empty() + strs_of(b) =~= strs_of(b));
    } else {
        lemma_strs_of_app(a.drop_first(), b);
        assert((a + b).drop_first() =~= a.drop_first() + b);
        assert((a + b)[0] == a[0]);
        let head: Seq<Seq<char>> = match a[0] {
            JsonV::Str(s) => seq![s],
            _ => Seq::<Seq<char>>::empty(),
        };
        assert(head + (strs_of(a.drop_first()) + strs_of(b)) =~= (head + strs_of(a.drop_first()))
            + strs_of(b));
    }
}

} // verus!

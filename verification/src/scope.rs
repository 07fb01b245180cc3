//! Scoping a caller's query to the configured projects or spaces: if
//! the query does not already mention the scope keyword, it is wrapped
//! in `kw IN ("a","b") AND (query)`.

use vstd::prelude::*;
use crate::text::{
    append_str, contains_seq, lower_of, lowercase, spec_join, str_concat, str_contains, views_of,
};

verus! {

/// The filter values, each double-quoted, joined by commas.
pub open spec fn quoted_list(items: Seq<Seq<char>>) -> Seq<char> {
    spec_join(items.map_values(|p: Seq<char>| seq!['"'] + p + seq!['"']), ","@)
}

/// Whether the query already mentions the scope keyword, in any case.
pub open spec fn mentions_scope(q: Seq<char>, kw: Seq<char>) -> bool {
    contains_seq(lower_of(q), kw + " "@) || contains_seq(lower_of(q), kw + "="@) || contains_seq(
        lower_of(q),
        kw + " in"@,
    )
}

/// The scoped query: unchanged when no filters are configured or the
/// caller already scoped it, otherwise wrapped in the filter clause.
pub open spec fn scoped_query(kw: Seq<char>, filters: Seq<Seq<char>>, q: Seq<char>) -> Seq<char> {
    if filters.len() == 0 {
        q
    } else if mentions_scope(q, kw) {
        q
    } else {
        kw + " IN ("@ + quoted_list(filters) + ") AND ("@ + q + ")"@
    }
}

/// Applies the configured filters to a query.  `kw` is the lower-case
/// scope keyword, e.g. a project or space field name.
pub fn scope_query(q: &str, filters: &Vec<String>, kw: &str) -> (r: String)
    ensures
        r@ == scoped_query(kw@, views_of(filters@), q@),
{
    if filters.len() == 0 {
        return q.to_owned();
    }
    let lower = lowercase(q);
    let kw_sp = str_concat(kw, " ");
    let kw_eq = str_concat(kw, "=");
    let kw_in = str_concat(kw, " in");
    if str_contains(lower.as_str(), kw_sp.as_str()) || str_contains(lower.as_str(), kw_eq.as_str())
        || str_contains(lower.as_str(), kw_in.as_str()) {
        return q.to_owned();
    }
    let ghost quoted = views_of(filters@).map_values(|p: Seq<char>| seq!['"'] + p + seq!['"']);
    let mut pieces: Vec<String> = Vec::new();
    let mut i: usize = 0;
    proof {
        assert(views_of(pieces@) =~= quoted.subrange(0, 0));
    }
    while i < filters.len()
        invariant
            i <= filters@.len(),
            quoted == views_of(filters@).map_values(|p: Seq<char>| seq!['"'] + p + seq!['"']),
            quoted.len() == filters@.len(),
            views_of(pieces@) == quoted.subrange(0, i as int),
        decreases filters@.len() - i,
    {
        let ghost p0 = pieces@;
        let mut piece = String::new();
        crate::text::push_char(&mut piece, '"');
        append_str(&mut piece, filters[i].as_str());
        crate::text::push_char(&mut piece, '"');
        pieces.push(piece);
        proof {
            assert(quoted[i as int] == seq!['"'] + filters@[i as int]@ + seq!['"']);
            assert(views_of(pieces@) =~= views_of(p0).push(quoted[i as int]));
            assert(quoted.subrange(0, i as int).push(quoted[i as int]) =~= quoted.subrange(
                0,
                i + 1,
            ));
        }
        i = i + 1;
    }
    proof {
        assert(quoted.subrange(0, quoted.len() as int) =~= quoted);
    }
    let joined = crate::text::join_strings(&pieces, ",");
    let mut out = kw.to_owned();
    append_str(&mut out, " IN (");
    append_str(&mut out, joined.as_str());
    append_str(&mut out, ") AND (");
    append_str(&mut out, q);
    append_str(&mut out, ")");
    proof {
        assert(out@ =~= kw@ + " IN ("@ + quoted_list(views_of(filters@)) + ") AND ("@ + q@
            + ")"@);
    }
    out
}

} // verus!

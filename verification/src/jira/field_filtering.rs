//! Field selection for issue-tracker queries.
//!
//! A search request names the fields it wants; the resolver decides
//! them by a strict priority: caller-supplied fields, then a configured
//! override list, then the built-in defaults extended with configured
//! custom fields (de-duplicated).

use vstd::prelude::*;
use crate::config::Config;
use crate::text::{spec_join, views_of, join_strings, str_contains_char, str_concat, vec_contains_str};

verus! {

/// The built-in default fields for search: comprehensive issue
/// information without heavy content fields.
pub open spec fn default_search_fields_spec() -> Seq<Seq<char>> {
    seq![
        "key"@,
        "summary"@,
        "status"@,
        "priority"@,
        "issuetype"@,
        "assignee"@,
        "reporter"@,
        "creator"@,
        "created"@,
        "updated"@,
        "duedate"@,
        "resolutiondate"@,
        "project"@,
        "labels"@,
        "components"@,
        "parent"@,
        "subtasks"@,
    ]
}

/// The built-in default search fields, as strings.
pub fn default_search_fields() -> (r: Vec<String>)
    ensures
        views_of(r@) == default_search_fields_spec(),
{
    let r: Vec<String> = vec![
        "key".to_owned(),
        "summary".to_owned(),
        "status".to_owned(),
        "priority".to_owned(),
        "issuetype".to_owned(),
        "assignee".to_owned(),
        "reporter".to_owned(),
        "creator".to_owned(),
        "created".to_owned(),
        "updated".to_owned(),
        "duedate".to_owned(),
        "resolutiondate".to_owned(),
        "project".to_owned(),
        "labels".to_owned(),
        "components".to_owned(),
        "parent".to_owned(),
        "subtasks".to_owned(),
    ];
    proof {
        assert(views_of(r@) =~= default_search_fields_spec());
    }
    r
}

/// The fields requested from non-search endpoints.
pub open spec fn essential_fields_spec() -> Seq<Seq<char>> {
    seq![
        "key"@,
        "summary"@,
        "description"@,
        "issuetype"@,
        "status"@,
        "priority"@,
        "assignee"@,
        "reporter"@,
        "created"@,
        "updated"@,
        "project"@,
    ]
}

/// The essential fields for non-search endpoints, as strings.
pub fn essential_fields() -> (r: Vec<String>)
    ensures
        views_of(r@) == essential_fields_spec(),
{
    let r: Vec<String> = vec![
        "key".to_owned(),
        "summary".to_owned(),
        "description".to_owned(),
        "issuetype".to_owned(),
        "status".to_owned(),
        "priority".to_owned(),
        "assignee".to_owned(),
        "reporter".to_owned(),
        "created".to_owned(),
        "updated".to_owned(),
        "project".to_owned(),
    ];
    proof {
        assert(views_of(r@) =~= essential_fields_spec());
    }
    r
}

/// `base` extended by each member of `extra` not already present,
/// left to right.
pub open spec fn append_dedup(base: Seq<Seq<char>>, extra: Seq<Seq<char>>) -> Seq<Seq<char>>
    decreases extra.len(),
{
    if extra.len() == 0 {
        base
    } else if base.contains(extra[0]) {
        append_dedup(base, extra.drop_first())
    } else {
        append_dedup(base.push(extra[0]), extra.drop_first())
    }
}

/// The views of an optional list of strings.
pub open spec fn opt_views(o: Option<Vec<String>>) -> Option<Seq<Seq<char>>> {
    match o {
        Option::Some(v) => Option::Some(views_of(v@)),
        Option::None => Option::None,
    }
}

/// The resolved field list: caller-supplied fields win outright; an
/// override list replaces the defaults entirely, custom fields
/// ignored; otherwise the defaults extended with the custom fields.
pub open spec fn resolve_spec(
    api: Option<Seq<Seq<char>>>,
    env_override: Option<Seq<Seq<char>>>,
    custom: Seq<Seq<char>>,
) -> Seq<Seq<char>> {
    if api matches Option::Some(f) && f.len() > 0 {
        api->0
    } else if env_override is Some {
        env_override->0
    } else {
        append_dedup(default_search_fields_spec(), custom)
    }
}

/// Resolves which fields a search should request.
pub fn resolve_search_fields(api_fields: Option<Vec<String>>, config: &Config) -> (r: Vec<String>)
    ensures
        views_of(r@) == resolve_spec(
            opt_views(api_fields),
            opt_views(config.jira_search_default_fields),
            views_of(config.jira_search_custom_fields@),
        ),
{
    if let Some(fields) = api_fields {
        if fields.len() > 0 {
            return fields;
        }
        if let Some(env_defaults) = &config.jira_search_default_fields {
            return env_defaults.clone();
        }
        return defaults_with_custom(config);
    }
    if let Some(env_defaults) = &config.jira_search_default_fields {
        return env_defaults.clone();
    }
    defaults_with_custom(config)
}

fn defaults_with_custom(config: &Config) -> (r: Vec<String>)
    ensures
        views_of(r@) == append_dedup(
            default_search_fields_spec(),
            views_of(config.jira_search_custom_fields@),
        ),
{
    let mut fields = default_search_fields();
    let ghost custom = views_of(config.jira_search_custom_fields@);
    let mut i: usize = 0;
    proof {
        assert(custom.subrange(0, custom.len() as int) =~= custom);
    }
    while i < config.jira_search_custom_fields.len()
        invariant
            i <= custom.len(),
            custom == views_of(config.jira_search_custom_fields@),
            append_dedup(views_of(fields@), custom.subrange(i as int, custom.len() as int))
                == append_dedup(default_search_fields_spec(), custom),
        decreases custom.len() - i,
    {
        let ghost rest = custom.subrange(i as int, custom.len() as int);
        proof {
            assert(rest[0] == custom[i as int]);
            assert(rest.drop_first() =~= custom.subrange(i + 1, custom.len() as int));
        }
        let name = &config.jira_search_custom_fields[i];
        if !vec_contains_str(&fields, name.as_str()) {
            let ghost f0 = views_of(fields@);
            fields.push(name.clone());
            proof {
                assert(views_of(fields@) =~= f0.push(custom[i as int]));
            }
        }
        i = i + 1;
    }
    proof {
        assert(custom.subrange(custom.len() as int, custom.len() as int) =~= Seq::<
            Seq<char>,
        >::empty());
    }
    fields
}

/// The URL for a non-search endpoint with the essential-field
/// selection and the heavy rendered fields excluded.
pub open spec fn filtered_url_spec(base: Seq<char>) -> Seq<char> {
    let fields = spec_join(essential_fields_spec(), ","@);
    let with_fields = if base.contains('?') {
        base + "&fields="@ + fields
    } else {
        base + "?fields="@ + fields
    };
    with_fields + "&expand=-renderedFields"@
}

/// Appends the essential-field selection to an endpoint URL.
pub fn apply_field_filtering_to_url(base_url: &str) -> (r: String)
    ensures
        r@ == filtered_url_spec(base_url@),
{
    let fields = join_strings(&essential_fields(), ",");
    let mut url = base_url.to_owned();
    if str_contains_char(base_url, '?') {
        crate::text::append_str(&mut url, "&fields=");
    } else {
        crate::text::append_str(&mut url, "?fields=");
    }
    crate::text::append_str(&mut url, fields.as_str());
    crate::text::append_str(&mut url, "&expand=-renderedFields");
    url
}

} // verus!

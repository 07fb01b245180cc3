//! Gateway configuration: credentials, limits, project and space
//! filters, and per-call field selections.
//!
//! Reading the process environment happens outside the library; the
//! functions here validate a configuration and derive values from it.

use vstd::prelude::*;
use crate::text::{
    contains_seq, spec_replace, spec_split, spec_trim, starts_with_seq, str_contains,
    str_contains_char, replace_all, split_commas, str_concat, str_starts_with, trim_str, views_of,
};

verus! {

pub struct Config {
    pub atlassian_domain: String,
    pub atlassian_email: String,
    pub atlassian_api_token: String,
    pub max_connections: usize,
    pub request_timeout_ms: u64,
    pub jira_projects_filter: Vec<String>,
    pub confluence_spaces_filter: Vec<String>,
    pub jira_search_default_fields: Option<Vec<String>>,
    pub jira_search_custom_fields: Vec<String>,
    pub response_exclude_fields: Option<Vec<String>>,
}

/// The domain with any `https://` or `http://` scheme prefix removed.
pub open spec fn stripped_domain(d: Seq<char>) -> Seq<char> {
    if starts_with_seq(d, "https://"@) {
        d.subrange(8, d.len() as int)
    } else if starts_with_seq(d, "http://"@) {
        d.subrange(7, d.len() as int)
    } else {
        d
    }
}

/// The first configuration fault, as its error message; `None` when the
/// configuration is valid.
pub open spec fn validate_err(c: &Config) -> Option<Seq<char>> {
    if c.atlassian_domain@.len() == 0 {
        Option::Some("Atlassian domain cannot be empty"@)
    } else if !contains_seq(stripped_domain(c.atlassian_domain@), ".atlassian.net"@) {
        Option::Some("Invalid Atlassian domain format"@)
    } else if c.atlassian_email@.len() == 0 || !c.atlassian_email@.contains('@') {
        Option::Some("Invalid Atlassian email"@)
    } else if c.atlassian_api_token@.len() == 0 {
        Option::Some("API token cannot be empty"@)
    } else if c.max_connections == 0 || c.max_connections > 1000 {
        Option::Some("Max connections must be between 1 and 1000"@)
    } else if c.request_timeout_ms < 100 || c.request_timeout_ms > 60000 {
        Option::Some("Request timeout must be between 100ms and 60000ms"@)
    } else {
        Option::None
    }
}

/// The base URL for the remote API: the domain under the `https`
/// scheme, with a bare `http` scheme upgraded.
pub open spec fn base_url_of(d: Seq<char>) -> Seq<char> {
    if starts_with_seq(d, "https://"@) {
        d
    } else if starts_with_seq(d, "http://"@) {
        spec_replace(d, "http://"@, "https://"@)
    } else {
        "https://"@ + d
    }
}

impl Config {
    /// Checks the configuration and reports the first fault.
    pub fn validate(&self) -> (r: Result<(), String>)
        ensures
            match r {
                Ok(()) => validate_err(self) is None,
                Err(m) => validate_err(self) == Option::Some(m@),
            },
    {
        proof {
            reveal_strlit("https://");
            reveal_strlit("http://");
        }
        if self.atlassian_domain.as_str().is_empty() {
            return Err("Atlassian domain cannot be empty".to_owned());
        }
        let domain: String = if str_starts_with(self.atlassian_domain.as_str(), "https://") {
            crate::text::str_suffix(self.atlassian_domain.as_str(), 8)
        } else if str_starts_with(self.atlassian_domain.as_str(), "http://") {
            crate::text::str_suffix(self.atlassian_domain.as_str(), 7)
        } else {
            self.atlassian_domain.clone()
        };
        if !str_contains(domain.as_str(), ".atlassian.net") {
            return Err("Invalid Atlassian domain format".to_owned());
        }
        if self.atlassian_email.as_str().is_empty() || !str_contains_char(
            self.atlassian_email.as_str(),
            '@',
        ) {
            return Err("Invalid Atlassian email".to_owned());
        }
        if self.atlassian_api_token.as_str().is_empty() {
            return Err("API token cannot be empty".to_owned());
        }
        if self.max_connections == 0 || self.max_connections > 1000 {
            return Err("Max connections must be between 1 and 1000".to_owned());
        }
        if self.request_timeout_ms < 100 || self.request_timeout_ms > 60000 {
            return Err("Request timeout must be between 100ms and 60000ms".to_owned());
        }
        Ok(())
    }

    /// The base URL for the remote API.
    pub fn get_atlassian_base_url(&self) -> (r: String)
        ensures
            r@ == base_url_of(self.atlassian_domain@),
    {
        proof {
            reveal_strlit("https://");
            reveal_strlit("http://");
        }
        if str_starts_with(self.atlassian_domain.as_str(), "https://") {
            self.atlassian_domain.clone()
        } else if str_starts_with(self.atlassian_domain.as_str(), "http://") {
            replace_all(self.atlassian_domain.as_str(), "http://", "https://")
        } else {
            str_concat("https://", self.atlassian_domain.as_str())
        }
    }
}

/// The comma-separated entries of `s` whose trimmed form is nonempty,
/// each trimmed: how field-name lists are read from the environment.
pub open spec fn split_fields_spec(s: Seq<char>) -> Seq<Seq<char>> {
    spec_split(s).map_values(|p: Seq<char>| spec_trim(p)).filter(|p: Seq<char>| p.len() != 0)
}

/// Splits a comma-separated field list, trimming each entry and
/// dropping entries that trim to nothing.
pub fn split_config_fields(s: &str) -> (r: Vec<String>)
    ensures
        views_of(r@) == split_fields_spec(s@),
{
    let pieces = split_commas(s);
    let ghost all = views_of(pieces@).map_values(|p: Seq<char>| spec_trim(p));
    let mut out: Vec<String> = Vec::new();
    let mut i: usize = 0;
    proof {
        assert(all.subrange(0, 0) =~= Seq::<Seq<char>>::empty());
        assert(Seq::<Seq<char>>::empty().filter(|p: Seq<char>| p.len() != 0) =~= Seq::<
            Seq<char>,
        >::empty());
        assert(views_of(out@) =~= Seq::<Seq<char>>::empty());
    }
    while i < pieces.len()
        invariant
            i <= pieces@.len(),
            all == views_of(pieces@).map_values(|p: Seq<char>| spec_trim(p)),
            all.len() == pieces@.len(),
            views_of(out@) == all.subrange(0, i as int).filter(|p: Seq<char>| p.len() != 0),
        decreases pieces@.len() - i,
    {
        let ghost out0 = out@;
        let t = trim_str(pieces[i].as_str());
        proof {
            assert(all[i as int] == spec_trim(pieces@[i as int]@));
            assert(all.subrange(0, i + 1) =~= all.subrange(0, i as int).push(all[i as int]));
        }
        if !t.as_str().is_empty() {
            out.push(t);
            proof {
                reveal(Seq::filter);
                assert(views_of(out@) =~= views_of(out0).push(spec_trim(pieces@[i as int]@)));
                assert(all.subrange(0, i as int).push(all[i as int]).drop_last() =~= all.subrange(
                    0,
                    i as int,
                ));
                assert(all.subrange(0, i as int).push(all[i as int]).filter(
                    |p: Seq<char>| p.len() != 0,
                ) =~= all.subrange(0, i as int).filter(|p: Seq<char>| p.len() != 0).push(
                    all[i as int],
                ));
            }
        } else {
            proof {
                reveal(Seq::filter);
                assert(all.subrange(0, i as int).push(all[i as int]).drop_last() =~= all.subrange(
                    0,
                    i as int,
                ));
                assert(all.subrange(0, i as int).push(all[i as int]).filter(
                    |p: Seq<char>| p.len() != 0,
                ) =~= all.subrange(0, i as int).filter(|p: Seq<char>| p.len() != 0));
            }
        }
        i = i + 1;
    }
    proof {
        assert(all.subrange(0, all.len() as int) =~= all);
        assert(split_fields_spec(s@) == all.filter(|p: Seq<char>| p.len() != 0));
    }
    out
}

/// The comma-separated entries of `s` that are nonempty before
/// trimming, each trimmed: how project and space filters are read.
pub open spec fn split_filter_spec(s: Seq<char>) -> Seq<Seq<char>> {
    spec_split(s).filter(|p: Seq<char>| p.len() != 0).map_values(|p: Seq<char>| spec_trim(p))
}

/// Splits a comma-separated filter list, dropping empty entries and
/// trimming the rest.
pub fn split_config_filter(s: &str) -> (r: Vec<String>)
    ensures
        views_of(r@) == split_filter_spec(s@),
{
    let pieces = split_commas(s);
    let ghost all = views_of(pieces@);
    let mut out: Vec<String> = Vec::new();
    let mut i: usize = 0;
    proof {
        assert(all.subrange(0, 0) =~= Seq::<Seq<char>>::empty());
        assert(Seq::<Seq<char>>::empty().filter(|p: Seq<char>| p.len() != 0) =~= Seq::<
            Seq<char>,
        >::empty());
        assert(views_of(out@) =~= Seq::<Seq<char>>::empty());
        assert(Seq::<Seq<char>>::empty().map_values(|p: Seq<char>| spec_trim(p)) =~= Seq::<
            Seq<char>,
        >::empty());
    }
    while i < pieces.len()
        invariant
            i <= pieces@.len(),
            all == views_of(pieces@),
            all.len() == pieces@.len(),
            views_of(out@) == all.subrange(0, i as int).filter(|p: Seq<char>| p.len() != 0)
                .map_values(|p: Seq<char>| spec_trim(p)),
        decreases pieces@.len() - i,
    {
        let ghost out0 = out@;
        proof {
            assert(all[i as int] == pieces@[i as int]@);
            assert(all.subrange(0, i + 1) =~= all.subrange(0, i as int).push(all[i as int]));
        }
        if !pieces[i].as_str().is_empty() {
            let t = trim_str(pieces[i].as_str());
            out.push(t);
            proof {
                let keep = |p: Seq<char>| p.len() != 0;
                reveal(Seq::filter);
                assert(views_of(out@) =~= views_of(out0).push(spec_trim(pieces@[i as int]@)));
                assert(all.subrange(0, i as int).push(all[i as int]).drop_last() =~= all.subrange(
                    0,
                    i as int,
                ));
                assert(all.subrange(0, i as int).push(all[i as int]).filter(keep)
                    =~= all.subrange(0, i as int).filter(keep).push(all[i as int]));
                assert(all.subrange(0, i as int).filter(keep).push(all[i as int]).map_values(
                    |p: Seq<char>| spec_trim(p),
                ) =~= all.subrange(0, i as int).filter(keep).map_values(
                    |p: Seq<char>| spec_trim(p),
                ).push(spec_trim(all[i as int])));
            }
        } else {
            proof {
                let keep = |p: Seq<char>| p.len() != 0;
                reveal(Seq::filter);
                assert(all.subrange(0, i as int).push(all[i as int]).drop_last() =~= all.subrange(
                    0,
                    i as int,
                ));
                assert(all.subrange(0, i as int).push(all[i as int]).filter(keep)
                    =~= all.subrange(0, i as int).filter(keep));
            }
        }
        i = i + 1;
    }
    proof {
        assert(all.subrange(0, all.len() as int) =~= all);
    }
    out
}

} // verus!

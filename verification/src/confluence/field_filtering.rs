//! Query-parameter selection for the wiki's v2 endpoints, which express
//! inclusion through `include-*` boolean parameters rather than field
//! lists, and the legacy `expand` parameter of the v1 search endpoint.

use vstd::prelude::*;
use crate::text::{spec_join, views_of, join_strings, str_concat};
use crate::jira::field_filtering::append_dedup;

verus! {

/// Parameters for a wiki v2 request.
pub struct FieldConfiguration {
    pub body_format: Option<String>,
    pub include_version: bool,
    pub include_labels: bool,
    pub include_properties: bool,
    pub include_operations: bool,
    pub custom_includes: Vec<String>,
    pub include_all: bool,
}

/// Copies a list of strings.
pub fn clone_strings(v: &Vec<String>) -> (r: Vec<String>)
    ensures
        r@ == v@,
{
    let mut out: Vec<String> = Vec::new();
    let mut i: usize = 0;
    while i < v.len()
        invariant
            i <= v@.len(),
            out@ == v@.subrange(0, i as int),
        decreases v@.len() - i,
    {
        out.push(v[i].clone());
        proof {
            assert(v@.subrange(0, i as int).push(v@[i as int]) =~= v@.subrange(0, i + 1));
        }
        i = i + 1;
    }
    proof {
        assert(v@.subrange(0, v@.len() as int) =~= v@);
    }
    out
}

/// The parameters of the all-fields configuration.
pub open spec fn all_fields_params_spec() -> Seq<(Seq<char>, Seq<char>)> {
    seq![
        ("body-format"@, "storage"@),
        ("include-version"@, "true"@),
        ("include-labels"@, "true"@),
        ("include-properties"@, "true"@),
        ("include-operations"@, "true"@),
    ]
}

/// The query parameters a configuration produces, in order: the body
/// format, then each enabled `include-*` flag, then the custom
/// includes.
pub open spec fn query_params_spec(c: &FieldConfiguration) -> Seq<(Seq<char>, Seq<char>)> {
    (match c.body_format {
        Option::Some(f) => seq![("body-format"@, f@)],
        Option::None => Seq::empty(),
    }) + (if c.include_version {
        seq![("include-version"@, "true"@)]
    } else {
        Seq::empty()
    }) + (if c.include_labels || c.include_all {
        seq![("include-labels"@, "true"@)]
    } else {
        Seq::empty()
    }) + (if c.include_properties || c.include_all {
        seq![("include-properties"@, "true"@)]
    } else {
        Seq::empty()
    }) + (if c.include_operations || c.include_all {
        seq![("include-operations"@, "true"@)]
    } else {
        Seq::empty()
    }) + views_of(c.custom_includes@).map_values(
        |p: Seq<char>| ("include-"@ + p, "true"@),
    )
}

/// The views of a parameter list.
pub open spec fn param_views(v: Seq<(String, String)>) -> Seq<(Seq<char>, Seq<char>)> {
    v.map_values(|p: (String, String)| (p.0@, p.1@))
}

impl FieldConfiguration {
    /// The essential parameters for v2 requests: storage body format
    /// and the version, plus the given custom includes.
    pub fn defaults(custom_includes: Vec<String>) -> (r: Self)
        ensures
            r.body_format matches Option::Some(f) && f@ == "storage"@,
            r.include_version,
            !r.include_labels,
            !r.include_properties,
            !r.include_operations,
            r.custom_includes@ == custom_includes@,
            !r.include_all,
    {
        FieldConfiguration {
            body_format: Some("storage".to_owned()),
            include_version: true,
            include_labels: false,
            include_properties: false,
            include_operations: false,
            custom_includes,
            include_all: false,
        }
    }

    /// A configuration that includes every field.
    pub fn all_fields() -> (r: Self)
        ensures
            r.body_format matches Option::Some(f) && f@ == "storage"@,
            r.include_version,
            r.include_labels,
            r.include_properties,
            r.include_operations,
            r.custom_includes@.len() == 0,
            r.include_all,
    {
        FieldConfiguration {
            body_format: Some("storage".to_owned()),
            include_version: true,
            include_labels: true,
            include_properties: true,
            include_operations: true,
            custom_includes: Vec::new(),
            include_all: true,
        }
    }

    /// A copy of this configuration with the extra include parameters
    /// appended, each at most once.
    pub fn with_additional_includes(&self, additional: Vec<String>) -> (r: Self)
        ensures
            r.body_format is Some == self.body_format is Some,
            self.body_format matches Option::Some(f) ==> r.body_format matches Option::Some(g)
                && g@ == f@,
            r.include_version == self.include_version,
            r.include_labels == self.include_labels,
            r.include_properties == self.include_properties,
            r.include_operations == self.include_operations,
            r.include_all == self.include_all,
            views_of(r.custom_includes@) == append_dedup(
                views_of(self.custom_includes@),
                views_of(additional@),
            ),
    {
        let mut includes = clone_strings(&self.custom_includes);
        let ghost extra = views_of(additional@);
        let mut i: usize = 0;
        proof {
            assert(extra.subrange(0, extra.len() as int) =~= extra);
        }
        while i < additional.len()
            invariant
                i <= extra.len(),
                extra == views_of(additional@),
                append_dedup(views_of(includes@), extra.subrange(i as int, extra.len() as int))
                    == append_dedup(views_of(self.custom_includes@), extra),
            decreases extra.len() - i,
        {
            let ghost rest = extra.subrange(i as int, extra.len() as int);
            proof {
                assert(rest[0] == extra[i as int]);
                assert(rest.drop_first() =~= extra.subrange(i + 1, extra.len() as int));
            }
            let name = &additional[i];
            if !crate::text::vec_contains_str(&includes, name.as_str()) {
                let ghost v0 = views_of(includes@);
                includes.push(name.clone());
                proof {
                    assert(views_of(includes@) =~= v0.push(extra[i as int]));
                }
            }
            i = i + 1;
        }
        proof {
            assert(extra.subrange(extra.len() as int, extra.len() as int) =~= Seq::<
                Seq<char>,
            >::empty());
        }
        let body_format = match &self.body_format {
            Some(f) => Some(f.clone()),
            None => None,
        };
        FieldConfiguration {
            body_format,
            include_version: self.include_version,
            include_labels: self.include_labels,
            include_properties: self.include_properties,
            include_operations: self.include_operations,
            custom_includes: includes,
            include_all: self.include_all,
        }
    }

    /// The query parameters for a v2 request.
    pub fn to_query_params(&self) -> (r: Vec<(String, String)>)
        ensures
            param_views(r@) == query_params_spec(self),
    {
        let mut params: Vec<(String, String)> = Vec::new();
        if let Some(format) = &self.body_format {
            params.push(("body-format".to_owned(), format.clone()));
        }
        if self.include_version {
            params.push(("include-version".to_owned(), "true".to_owned()));
        }
        if self.include_labels || self.include_all {
            params.push(("include-labels".to_owned(), "true".to_owned()));
        }
        if self.include_properties || self.include_all {
            params.push(("include-properties".to_owned(), "true".to_owned()));
        }
        if self.include_operations || self.include_all {
            params.push(("include-operations".to_owned(), "true".to_owned()));
        }
        let ghost fixed = param_views(params@);
        let ghost customs = views_of(self.custom_includes@).map_values(
            |p: Seq<char>| ("include-"@ + p, "true"@),
        );
        let mut i: usize = 0;
        proof {
            assert(customs.subrange(0, 0) =~= Seq::<(Seq<char>, Seq<char>)>::empty());
            assert(fixed + customs.subrange(0, 0) =~= fixed);
        }
        while i < self.custom_includes.len()
            invariant
                i <= customs.len(),
                customs == views_of(self.custom_includes@).map_values(
                    |p: Seq<char>| ("include-"@ + p, "true"@),
                ),
                customs.len() == self.custom_includes@.len(),
                param_views(params@) == fixed + customs.subrange(0, i as int),
            decreases customs.len() - i,
        {
            let ghost p0 = param_views(params@);
            let key = str_concat("include-", self.custom_includes[i].as_str());
            params.push((key, "true".to_owned()));
            proof {
                assert(customs[i as int] == ("include-"@ + self.custom_includes@[i as int]@,
                "true"@));
                assert(param_views(params@) =~= p0.push(customs[i as int]));
                assert(customs.subrange(0, i + 1) =~= customs.subrange(0, i as int).push(
                    customs[i as int],
                ));
                assert(fixed + customs.subrange(0, i as int).push(customs[i as int]) =~= (fixed
                    + customs.subrange(0, i as int)).push(customs[i as int]));
            }
            i = i + 1;
        }
        proof {
            assert(customs.subrange(0, customs.len() as int) =~= customs);
            assert(query_params_spec(self) == fixed + customs);
        }
        params
    }
}

/// Builds query parameters for wiki v2 requests.
pub struct FieldSelector {
    pub config: FieldConfiguration,
}

impl FieldSelector {
    /// A selector over a copy of the given configuration.
    pub fn from_config(config: &FieldConfiguration) -> (r: Self)
        ensures
            query_params_spec(&r.config) == query_params_spec(config),
    {
        let body_format = match &config.body_format {
            Some(f) => Some(f.clone()),
            None => None,
        };
        let copied = FieldConfiguration {
            body_format,
            include_version: config.include_version,
            include_labels: config.include_labels,
            include_properties: config.include_properties,
            include_operations: config.include_operations,
            custom_includes: clone_strings(&config.custom_includes),
            include_all: config.include_all,
        };
        proof {
            assert(query_params_spec(&copied) =~= query_params_spec(config));
        }
        FieldSelector { config: copied }
    }

    /// A selector that includes every field.
    pub fn all_fields() -> (r: Self)
        ensures
            query_params_spec(&r.config) == all_fields_params_spec(),
    {
        let config = FieldConfiguration::all_fields();
        proof {
            assert(views_of(config.custom_includes@).map_values(
                |p: Seq<char>| ("include-"@ + p, "true"@),
            ) =~= Seq::<(Seq<char>, Seq<char>)>::empty());
            assert(query_params_spec(&config) =~= all_fields_params_spec());
        }
        FieldSelector { config }
    }

    /// The query parameters for a v2 request.
    pub fn to_query_params(&self) -> (r: Vec<(String, String)>)
        ensures
            param_views(r@) == query_params_spec(&self.config),
    {
        self.config.to_query_params()
    }
}

/// The v2 query parameters for a call: everything when
/// `include_all_fields` asks for it, else the defaults extended by the
/// per-call additions.
pub open spec fn v2_filtering_spec(
    include_all_fields: Option<bool>,
    additional_includes: Option<Seq<Seq<char>>>,
    env_includes: Seq<Seq<char>>,
) -> Seq<(Seq<char>, Seq<char>)> {
    if include_all_fields == Option::Some(true) {
        all_fields_params_spec()
    } else {
        seq![("body-format"@, "storage"@), ("include-version"@, "true"@)] + append_dedup(
            env_includes,
            match additional_includes {
                Option::Some(a) => a,
                Option::None => Seq::empty(),
            },
        ).map_values(|p: Seq<char>| ("include-"@ + p, "true"@))
    }
}

/// Builds the v2 query parameters for one call.  `env_custom_includes`
/// is the configured include list, read from the environment outside
/// the library.
pub fn apply_v2_filtering(
    include_all_fields: Option<bool>,
    additional_includes: Option<Vec<String>>,
    env_custom_includes: Vec<String>,
) -> (r: Vec<(String, String)>)
    ensures
        param_views(r@) == v2_filtering_spec(
            include_all_fields,
            match additional_includes {
                Option::Some(a) => Option::Some(views_of(a@)),
                Option::None => Option::None,
            },
            views_of(env_custom_includes@),
        ),
{
    if let Some(true) = include_all_fields {
        let selector = FieldSelector::all_fields();
        return selector.to_query_params();
    }
    let config = FieldConfiguration::defaults(env_custom_includes);
    let config = match additional_includes {
        Some(additional) => config.with_additional_includes(additional),
        None => {
            let ghost e = views_of(config.custom_includes@);
            proof {
                assert(append_dedup(e, Seq::<Seq<char>>::empty()) == e);
            }
            config
        },
    };
    let selector = FieldSelector::from_config(&config);
    let r = selector.to_query_params();
    proof {
        assert(seq![("body-format"@, "storage"@)] + seq![("include-version"@, "true"@)] =~= seq![
            ("body-format"@, "storage"@),
            ("include-version"@, "true"@),
        ]);
        assert(query_params_spec(&config) =~= v2_filtering_spec(
            include_all_fields,
            match additional_includes {
                Option::Some(a) => Option::Some(views_of(a@)),
                Option::None => Option::None,
            },
            views_of(env_custom_includes@),
        ));
    }
    r
}

/// The expand parameter for the legacy v1 search endpoint: the base
/// expansions, extended by the per-call additions, each at most once.
pub open spec fn expand_filtering_spec(
    include_all_fields: Option<bool>,
    additional_expand: Option<Seq<Seq<char>>>,
) -> Seq<char> {
    let base: Seq<Seq<char>> = if include_all_fields == Option::Some(true) {
        seq!["body.storage"@, "version"@, "space"@, "history"@, "metadata"@]
    } else {
        seq!["body.storage"@, "version"@]
    };
    spec_join(
        append_dedup(
            base,
            match additional_expand {
                Option::Some(a) => a,
                Option::None => Seq::empty(),
            },
        ),
        ","@,
    )
}

/// Builds the v1 search URL and its expand parameter.
pub fn apply_expand_filtering(
    url: &str,
    include_all_fields: Option<bool>,
    additional_expand: Option<Vec<String>>,
) -> (r: (String, Option<String>))
    ensures
        r.0@ == url@,
        r.1 matches Option::Some(e) && e@ == expand_filtering_spec(
            include_all_fields,
            match additional_expand {
                Option::Some(a) => Option::Some(views_of(a@)),
                Option::None => Option::None,
            },
        ),
{
    let mut expand: Vec<String> = if let Some(true) = include_all_fields {
        vec![
            "body.storage".to_owned(),
            "version".to_owned(),
            "space".to_owned(),
            "history".to_owned(),
            "metadata".to_owned(),
        ]
    } else {
        vec!["body.storage".to_owned(), "version".to_owned()]
    };
    let ghost base = views_of(expand@);
    proof {
        if include_all_fields == Option::<bool>::Some(true) {
            assert(base =~= seq!["body.storage"@, "version"@, "space"@, "history"@, "metadata"@]);
        } else {
            assert(base =~= seq!["body.storage"@, "version"@]);
        }
    }
    if let Some(additional) = additional_expand {
        let ghost extra = views_of(additional@);
        let mut i: usize = 0;
        proof {
            assert(extra.subrange(0, extra.len() as int) =~= extra);
        }
        while i < additional.len()
            invariant
                i <= extra.len(),
                extra == views_of(additional@),
                append_dedup(views_of(expand@), extra.subrange(i as int, extra.len() as int))
                    == append_dedup(base, extra),
            decreases extra.len() - i,
        {
            let ghost rest = extra.subrange(i as int, extra.len() as int);
            proof {
                assert(rest[0] == extra[i as int]);
                assert(rest.drop_first() =~= extra.subrange(i + 1, extra.len() as int));
            }
            let name = &additional[i];
            if !crate::text::vec_contains_str(&expand, name.as_str()) {
                let ghost v0 = views_of(expand@);
                expand.push(name.clone());
                proof {
                    assert(views_of(expand@) =~= v0.push(extra[i as int]));
                }
            }
            i = i + 1;
        }
        proof {
            assert(extra.subrange(extra.len() as int, extra.len() as int) =~= Seq::<
                Seq<char>,
            >::empty());
        }
    } else {
        proof {
            assert(append_dedup(base, Seq::<Seq<char>>::empty()) == base);
        }
    }
    let joined = join_strings(&expand, ",");
    (url.to_owned(), Some(joined))
}

} // verus!

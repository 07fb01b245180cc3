//! Wiki tools: request planning and response shaping for each
//! operation the gateway exposes.
//!
//! A handler turns validated arguments into an `HttpPlan`; the caller
//! performs the request and hands the `HttpOutcome` back.  Creating or
//! updating a page takes two requests; the handler plans each step
//! from the previous step's outcome.

pub mod field_filtering;

use vstd::prelude::*;
use crate::args::{
    bool_arg, index_of, str_arg, str_list_arg, u64_arg, get_bool_arg, get_str_arg,
    get_str_list_arg,
};
use crate::config::{Config, base_url_of};
use crate::http::{
    HttpMethod, HttpOutcome, HttpPlan, extract_interp, interpret_extracted, interpret_wrapped,
    wrap_interp,
};
use crate::json::{Json, JsonV, jm, jm_obj, lemma_jm_obj_index};
use crate::scope::{scope_query, scoped_query};
use crate::text::{all_digits, dec_str, dec_val, append_str, views_of};
use self::field_filtering::{apply_expand_filtering, apply_v2_filtering, expand_filtering_spec, param_views, v2_filtering_spec};

verus! {

/// The caller's optional include list, as views.
pub open spec fn opt_includes(args: JsonV) -> Option<Seq<Seq<char>>> {
    str_list_arg(args, "additional_expand"@)
}

/// The v2 query parameters a call's arguments select, given the
/// environment-configured custom includes.
pub open spec fn v2_params_of(args: JsonV, env: Seq<Seq<char>>) -> Seq<(Seq<char>, Seq<char>)> {
    v2_filtering_spec(bool_arg(args, "include_all_fields"@), opt_includes(args), env)
}

fn v2_params_exec(args: &Json, env_custom_includes: Vec<String>) -> (r: Vec<(String, String)>)
    ensures
        param_views(r@) == v2_params_of(jm(*args), views_of(env_custom_includes@)),
{
    let include_all = get_bool_arg(args, "include_all_fields");
    let additional = get_str_list_arg(args, "additional_expand");
    apply_v2_filtering(include_all, additional, env_custom_includes)
}

/// The v2 page endpoint: `{base}/wiki/api/v2/pages/{id}`.
pub open spec fn page_url(base: Seq<char>, id: Seq<char>) -> Seq<char> {
    base + "/wiki/api/v2/pages/"@ + id
}

fn page_url_exec(config: &Config, id: &str) -> (r: String)
    ensures
        r@ == page_url(base_url_of(config.atlassian_domain@), id@),
{
    let mut url = config.get_atlassian_base_url();
    append_str(&mut url, "/wiki/api/v2/pages/");
    append_str(&mut url, id);
    url
}

/// Searches wiki content with a caller-supplied query.
pub struct SearchHandler;

impl SearchHandler {
    /// Plans the search: the query scoped to the configured spaces,
    /// the caller's limit (default 10) and the expand selection;
    /// fails exactly when `query` is missing.
    pub fn prepare(args: &Json, config: &Config) -> (r: Result<HttpPlan, String>)
        ensures
            match str_arg(jm(*args), "query"@) {
                Option::None => r matches Err(m) && m@ == "Missing query parameter"@,
                Option::Some(cql) => r matches Ok(p) && p.method is Get && p.url@ == base_url_of(
                    config.atlassian_domain@,
                ) + "/wiki/rest/api/search"@ && p.body is None && param_views(p.query@) == seq![
                    ("cql"@, scoped_query(
                        "space"@,
                        views_of(config.confluence_spaces_filter@),
                        cql,
                    )),
                    ("limit"@, dec_str(
                        (match u64_arg(jm(*args), "limit"@) {
                            Option::Some(v) => v,
                            Option::None => 10,
                        }) as nat,
                    )),
                    ("expand"@, expand_filtering_spec(
                        bool_arg(jm(*args), "include_all_fields"@),
                        opt_includes(jm(*args)),
                    )),
                ],
            },
    {
        let cql = match get_str_arg(args, "query") {
            Some(q) => q,
            None => {
                return Err("Missing query parameter".to_owned());
            },
        };
        let limit = crate::args::get_u64_arg_or(args, "limit", 10);
        let final_cql = scope_query(cql.as_str(), &config.confluence_spaces_filter, "space");
        let include_all = get_bool_arg(args, "include_all_fields");
        let additional = get_str_list_arg(args, "additional_expand");
        let mut url = config.get_atlassian_base_url();
        append_str(&mut url, "/wiki/rest/api/search");
        let expand_pair = apply_expand_filtering(url.as_str(), include_all, additional);
        let expand = match expand_pair.1 {
            Some(e) => e,
            None => String::new(),
        };
        let mut query: Vec<(String, String)> = Vec::new();
        query.push(("cql".to_owned(), final_cql));
        query.push(("limit".to_owned(), crate::text::u64_to_string(limit)));
        query.push(("expand".to_owned(), expand));
        proof {
            assert(param_views(query@) =~= seq![
                ("cql"@, scoped_query(
                    "space"@,
                    views_of(config.confluence_spaces_filter@),
                    str_arg(jm(*args), "query"@)->Some_0,
                )),
                ("limit"@, dec_str(
                    (match u64_arg(jm(*args), "limit"@) {
                        Option::Some(v) => v,
                        Option::None => 10,
                    }) as nat,
                )),
                ("expand"@, expand_filtering_spec(
                    bool_arg(jm(*args), "include_all_fields"@),
                    opt_includes(jm(*args)),
                )),
            ]);
        }
        Ok(HttpPlan { method: HttpMethod::Get, url, query, body: None })
    }

    /// Extracts the result:
    /// `{"success": true, "results": …, "total": …}`.
    pub fn interpret(outcome: HttpOutcome) -> (r: Result<Json, String>)
        ensures
            extract_interp(
                outcome,
                "Search failed: "@,
                true,
                seq![("results"@, "results"@), ("total"@, "totalSize"@)],
                r,
            ),
    {
        let mut fields: Vec<(String, String)> = Vec::new();
        fields.push(("results".to_owned(), "results".to_owned()));
        fields.push(("total".to_owned(), "totalSize".to_owned()));
        let ghost fm = fields@.map_values(|f: (String, String)| (f.0@, f.1@));
        proof {
            assert(fm =~= seq![("results"@, "results"@), ("total"@, "totalSize"@)]);
        }
        interpret_extracted(outcome, "Search failed: ", true, &fields)
    }
}

/// Retrieves one page by id.
pub struct GetPageHandler;

impl GetPageHandler {
    /// Plans the request: the page endpoint with the selected
    /// `include-*` parameters; fails exactly when `page_id` is
    /// missing.
    pub fn prepare(args: &Json, config: &Config, env_custom_includes: Vec<String>) -> (r: Result<
        HttpPlan,
        String,
    >)
        ensures
            match str_arg(jm(*args), "page_id"@) {
                Option::None => r matches Err(m) && m@ == "Missing page_id"@,
                Option::Some(id) => r matches Ok(p) && p.method is Get && p.url@ == page_url(
                    base_url_of(config.atlassian_domain@),
                    id,
                ) && p.body is None && param_views(p.query@) == v2_params_of(
                    jm(*args),
                    views_of(env_custom_includes@),
                ),
            },
    {
        let id = match get_str_arg(args, "page_id") {
            Some(i) => i,
            None => {
                return Err("Missing page_id".to_owned());
            },
        };
        let url = page_url_exec(config, id.as_str());
        let query = v2_params_exec(args, env_custom_includes);
        Ok(HttpPlan { method: HttpMethod::Get, url, query, body: None })
    }

    /// Wraps the response: `{"success": true, "page": data}`.
    pub fn interpret(outcome: HttpOutcome) -> (r: Result<Json, String>)
        ensures
            wrap_interp(outcome, "Failed to get page: "@, true, "page"@, r),
    {
        interpret_wrapped(outcome, "Failed to get page: ", true, "page")
    }
}

/// Lists a page's children.
pub struct GetPageChildrenHandler;

impl GetPageChildrenHandler {
    /// Plans the request: the page's children endpoint; fails exactly
    /// when `page_id` is missing.
    pub fn prepare(args: &Json, config: &Config, env_custom_includes: Vec<String>) -> (r: Result<
        HttpPlan,
        String,
    >)
        ensures
            match str_arg(jm(*args), "page_id"@) {
                Option::None => r matches Err(m) && m@ == "Missing page_id"@,
                Option::Some(id) => r matches Ok(p) && p.method is Get && p.url@ == page_url(
                    base_url_of(config.atlassian_domain@),
                    id,
                ) + "/children"@ && p.body is None && param_views(p.query@) == v2_params_of(
                    jm(*args),
                    views_of(env_custom_includes@),
                ),
            },
    {
        let id = match get_str_arg(args, "page_id") {
            Some(i) => i,
            None => {
                return Err("Missing page_id".to_owned());
            },
        };
        let mut url = page_url_exec(config, id.as_str());
        append_str(&mut url, "/children");
        let query = v2_params_exec(args, env_custom_includes);
        Ok(HttpPlan { method: HttpMethod::Get, url, query, body: None })
    }

    /// Extracts the result: `{"success": true, "children": …}`.
    pub fn interpret(outcome: HttpOutcome) -> (r: Result<Json, String>)
        ensures
            extract_interp(
                outcome,
                "Failed to get child pages: "@,
                true,
                seq![("children"@, "results"@)],
                r,
            ),
    {
        let mut fields: Vec<(String, String)> = Vec::new();
        fields.push(("children".to_owned(), "results".to_owned()));
        let ghost fm = fields@.map_values(|f: (String, String)| (f.0@, f.1@));
        proof {
            assert(fm =~= seq![("children"@, "results"@)]);
        }
        interpret_extracted(outcome, "Failed to get child pages: ", true, &fields)
    }
}

/// Lists a page's footer comments.
pub struct GetCommentsHandler;

impl GetCommentsHandler {
    /// Plans the request: the page's footer-comments endpoint; fails
    /// exactly when `page_id` is missing.
    pub fn prepare(args: &Json, config: &Config, env_custom_includes: Vec<String>) -> (r: Result<
        HttpPlan,
        String,
    >)
        ensures
            match str_arg(jm(*args), "page_id"@) {
                Option::None => r matches Err(m) && m@ == "Missing page_id"@,
                Option::Some(id) => r matches Ok(p) && p.method is Get && p.url@ == page_url(
                    base_url_of(config.atlassian_domain@),
                    id,
                ) + "/footer-comments"@ && p.body is None && param_views(p.query@) == v2_params_of(
                    jm(*args),
                    views_of(env_custom_includes@),
                ),
            },
    {
        let id = match get_str_arg(args, "page_id") {
            Some(i) => i,
            None => {
                return Err("Missing page_id".to_owned());
            },
        };
        let mut url = page_url_exec(config, id.as_str());
        append_str(&mut url, "/footer-comments");
        let query = v2_params_exec(args, env_custom_includes);
        Ok(HttpPlan { method: HttpMethod::Get, url, query, body: None })
    }

    /// Extracts the result: `{"success": true, "comments": …}`.
    pub fn interpret(outcome: HttpOutcome) -> (r: Result<Json, String>)
        ensures
            extract_interp(
                outcome,
                "Failed to get comments: "@,
                true,
                seq![("comments"@, "results"@)],
                r,
            ),
    {
        let mut fields: Vec<(String, String)> = Vec::new();
        fields.push(("comments".to_owned(), "results".to_owned()));
        let ghost fm = fields@.map_values(|f: (String, String)| (f.0@, f.1@));
        proof {
            assert(fm =~= seq![("comments"@, "results"@)]);
        }
        interpret_extracted(outcome, "Failed to get comments: ", true, &fields)
    }
}

/// The storage-format body member of a page write.
pub open spec fn storage_body_json(content: Seq<char>) -> JsonV {
    JsonV::Obj(
        seq![("representation"@, JsonV::Str("storage"@)), ("value"@, JsonV::Str(content))],
    )
}

fn build_storage_body(content: String) -> (r: Json)
    ensures
        jm(r) == storage_body_json(content@),
{
    let ghost cm = content@;
    let mut fs: Vec<(String, Json)> = Vec::new();
    fs.push(("representation".to_owned(), Json::Str("storage".to_owned())));
    fs.push(("value".to_owned(), Json::Str(content)));
    proof {
        lemma_jm_obj_index(fs@);
        assert(jm_obj(fs@) =~= storage_body_json(cm)->Obj_0);
    }
    Json::Obj(fs)
}

/// The space id named by a space-lookup response: the `id` string of
/// the first result.
pub open spec fn space_id_of(d: JsonV) -> Option<Seq<char>> {
    match index_of(d, "results"@) {
        JsonV::Arr(es) => if es.len() > 0 {
            match index_of(es[0], "id"@) {
                JsonV::Str(s) => Option::Some(s),
                _ => Option::None,
            }
        } else {
            Option::None
        },
        _ => Option::None,
    }
}

fn space_id_exec(d: &Json) -> (r: Option<String>)
    ensures
        match r {
            Some(s) => space_id_of(jm(*d)) == Option::Some(s@),
            None => space_id_of(jm(*d)) is None,
        },
{
    let results = match crate::args::get_member(d, "results") {
        Some(v) => v,
        None => {
            return None;
        },
    };
    let es = match results {
        Json::Arr(es) => es,
        _ => {
            return None;
        },
    };
    if es.len() == 0 {
        return None;
    }
    proof {
        crate::json::lemma_jm_arr_index(es@);
    }
    match crate::args::get_member(&es[0], "id") {
        Some(Json::Str(s)) => Some(s.clone()),
        _ => None,
    }
}

/// Creates a page in a space.  The space key is first resolved to a
/// space id with a lookup request, then the page is posted.
pub struct CreatePageHandler;

impl CreatePageHandler {
    /// Plans the space lookup; fails exactly when `space_key`, `title`
    /// or `content` is missing, in that order.
    pub fn prepare_space_lookup(args: &Json, config: &Config) -> (r: Result<HttpPlan, String>)
        ensures
            match str_arg(jm(*args), "space_key"@) {
                Option::None => r matches Err(m) && m@ == "Missing space_key"@,
                Option::Some(k) => match str_arg(jm(*args), "title"@) {
                    Option::None => r matches Err(m) && m@ == "Missing title"@,
                    Option::Some(t) => match str_arg(jm(*args), "content"@) {
                        Option::None => r matches Err(m) && m@ == "Missing content"@,
                        Option::Some(c) => r matches Ok(p) && p.method is Get && p.url@
                            == base_url_of(config.atlassian_domain@) + "/wiki/api/v2/spaces"@
                            && p.body is None && param_views(p.query@) == seq![("keys"@, k)],
                    },
                },
            },
    {
        let space_key = match get_str_arg(args, "space_key") {
            Some(k) => k,
            None => {
                return Err("Missing space_key".to_owned());
            },
        };
        if get_str_arg(args, "title").is_none() {
            return Err("Missing title".to_owned());
        }
        if get_str_arg(args, "content").is_none() {
            return Err("Missing content".to_owned());
        }
        let mut url = config.get_atlassian_base_url();
        append_str(&mut url, "/wiki/api/v2/spaces");
        let ghost km = space_key@;
        let mut query: Vec<(String, String)> = Vec::new();
        query.push(("keys".to_owned(), space_key));
        proof {
            assert(param_views(query@) =~= seq![("keys"@, km)]);
        }
        Ok(HttpPlan { method: HttpMethod::Get, url, query, body: None })
    }

    /// Plans the creation from the lookup's outcome: a failed lookup
    /// or an absent space is its own error; otherwise the page is
    /// posted with the selected `include-*` parameters.
    pub fn prepare_create(
        args: &Json,
        config: &Config,
        env_custom_includes: Vec<String>,
        space_response: HttpOutcome,
    ) -> (r: Result<HttpPlan, String>)
        ensures
            match str_arg(jm(*args), "space_key"@) {
                Option::None => r matches Err(m) && m@ == "Missing space_key"@,
                Option::Some(k) => match str_arg(jm(*args), "title"@) {
                    Option::None => r matches Err(m) && m@ == "Missing title"@,
                    Option::Some(t) => match str_arg(jm(*args), "content"@) {
                        Option::None => r matches Err(m) && m@ == "Missing content"@,
                        Option::Some(c) => if !space_response.success {
                            r matches Err(m) && m@ == "Failed to get space ID for key '"@ + k
                                + "': "@ + space_response.status@
                        } else {
                            match crate::parse::sp_parse(space_response.body@) {
                                Option::None => r matches Err(m) && m@
                                    == "Failed to parse response body"@,
                                Option::Some(d) => match space_id_of(d) {
                                    Option::None => r matches Err(m) && m@ == "Space '"@ + k
                                        + "' not found"@,
                                    Option::Some(sid) => r matches Ok(p) && p.method is Post
                                        && p.url@ == base_url_of(config.atlassian_domain@)
                                        + "/wiki/api/v2/pages"@ && param_views(p.query@)
                                        == v2_params_of(jm(*args), views_of(env_custom_includes@))
                                        && (p.body matches Option::Some(b) && jm(b) == JsonV::Obj(
                                        seq![
                                            ("spaceId"@, JsonV::Str(sid)),
                                            ("title"@, JsonV::Str(t)),
                                            ("body"@, storage_body_json(c)),
                                        ],
                                    )),
                                },
                            }
                        },
                    },
                },
            },
    {
        let space_key = match get_str_arg(args, "space_key") {
            Some(k) => k,
            None => {
                return Err("Missing space_key".to_owned());
            },
        };
        let title = match get_str_arg(args, "title") {
            Some(t) => t,
            None => {
                return Err("Missing title".to_owned());
            },
        };
        let content = match get_str_arg(args, "content") {
            Some(c) => c,
            None => {
                return Err("Missing content".to_owned());
            },
        };
        if !space_response.success {
            let mut m = "Failed to get space ID for key '".to_owned();
            append_str(&mut m, space_key.as_str());
            append_str(&mut m, "': ");
            append_str(&mut m, space_response.status.as_str());
            return Err(m);
        }
        let data = match crate::parse::parse_json(space_response.body.as_str()) {
            Some(d) => d,
            None => {
                return Err("Failed to parse response body".to_owned());
            },
        };
        let space_id = match space_id_exec(&data) {
            Some(s) => s,
            None => {
                let mut m = "Space '".to_owned();
                append_str(&mut m, space_key.as_str());
                append_str(&mut m, "' not found");
                return Err(m);
            },
        };
        let mut url = config.get_atlassian_base_url();
        append_str(&mut url, "/wiki/api/v2/pages");
        let query = v2_params_exec(args, env_custom_includes);
        let ghost sm = space_id@;
        let ghost tm = title@;
        let ghost cm = content@;
        let mut body: Vec<(String, Json)> = Vec::new();
        body.push(("spaceId".to_owned(), Json::Str(space_id)));
        body.push(("title".to_owned(), Json::Str(title)));
        body.push(("body".to_owned(), build_storage_body(content)));
        let b = Json::Obj(body);
        proof {
            lemma_jm_obj_index(body@);
            assert(jm(b)->Obj_0 =~= seq![
                ("spaceId"@, JsonV::Str(sm)),
                ("title"@, JsonV::Str(tm)),
                ("body"@, storage_body_json(cm)),
            ]);
        }
        Ok(HttpPlan { method: HttpMethod::Post, url, query, body: Some(b) })
    }

    /// Wraps the response: `{"success": true, "page": data}`.
    pub fn interpret(outcome: HttpOutcome) -> (r: Result<Json, String>)
        ensures
            wrap_interp(outcome, "Failed to create page: "@, false, "page"@, r),
    {
        interpret_wrapped(outcome, "Failed to create page: ", false, "page")
    }
}

/// The current version number named by a page response, when its
/// literal is a plain integer that fits.
pub open spec fn version_of(d: JsonV) -> Option<int> {
    match index_of(index_of(d, "version"@), "number"@) {
        JsonV::Num(lit) => if all_digits(lit) && dec_val(lit) <= u64::MAX {
            Option::Some(dec_val(lit))
        } else {
            Option::None
        },
        _ => Option::None,
    }
}

fn version_exec(d: &Json) -> (r: Option<u64>)
    ensures
        match r {
            Some(v) => version_of(jm(*d)) == Option::Some(v as int),
            None => version_of(jm(*d)) is None,
        },
{
    let version = match crate::args::get_member(d, "version") {
        Some(v) => v,
        None => {
            return None;
        },
    };
    match crate::args::get_member(version, "number") {
        Some(Json::Num(lit)) => crate::text::parse_u64(lit.as_str()),
        _ => None,
    }
}

/// Rewrites a page: its current version is fetched first, then the
/// page is put back one version higher.
pub struct UpdatePageHandler;

impl UpdatePageHandler {
    /// Plans the version fetch; fails exactly when `page_id`, `title`
    /// or `content` is missing, in that order.
    pub fn prepare_get(args: &Json, config: &Config) -> (r: Result<HttpPlan, String>)
        ensures
            match str_arg(jm(*args), "page_id"@) {
                Option::None => r matches Err(m) && m@ == "Missing page_id"@,
                Option::Some(id) => match str_arg(jm(*args), "title"@) {
                    Option::None => r matches Err(m) && m@ == "Missing title"@,
                    Option::Some(t) => match str_arg(jm(*args), "content"@) {
                        Option::None => r matches Err(m) && m@ == "Missing content"@,
                        Option::Some(c) => r matches Ok(p) && p.method is Get && p.url@
                            == page_url(base_url_of(config.atlassian_domain@), id)
                            && p.body is None && param_views(p.query@) == seq![
                            ("include-version"@, "true"@),
                        ],
                    },
                },
            },
    {
        let id = match get_str_arg(args, "page_id") {
            Some(i) => i,
            None => {
                return Err("Missing page_id".to_owned());
            },
        };
        if get_str_arg(args, "title").is_none() {
            return Err("Missing title".to_owned());
        }
        if get_str_arg(args, "content").is_none() {
            return Err("Missing content".to_owned());
        }
        let url = page_url_exec(config, id.as_str());
        let mut query: Vec<(String, String)> = Vec::new();
        query.push(("include-version".to_owned(), "true".to_owned()));
        proof {
            assert(param_views(query@) =~= seq![("include-version"@, "true"@)]);
        }
        Ok(HttpPlan { method: HttpMethod::Get, url, query, body: None })
    }

    /// Plans the update from the fetch's outcome: a failed fetch or an
    /// unreadable version is its own error; otherwise the page is put
    /// back with the version incremented.
    pub fn prepare_update(
        args: &Json,
        config: &Config,
        env_custom_includes: Vec<String>,
        current: HttpOutcome,
    ) -> (r: Result<HttpPlan, String>)
        ensures
            match str_arg(jm(*args), "page_id"@) {
                Option::None => r matches Err(m) && m@ == "Missing page_id"@,
                Option::Some(id) => match str_arg(jm(*args), "title"@) {
                    Option::None => r matches Err(m) && m@ == "Missing title"@,
                    Option::Some(t) => match str_arg(jm(*args), "content"@) {
                        Option::None => r matches Err(m) && m@ == "Missing content"@,
                        Option::Some(c) => if !current.success {
                            r matches Err(m) && m@ == "Failed to get page for update: "@
                                + current.status@
                        } else {
                            match crate::parse::sp_parse(current.body@) {
                                Option::None => r matches Err(m) && m@
                                    == "Failed to parse response body"@,
                                Option::Some(d) => match version_of(d) {
                                    Option::Some(v) => if v < u64::MAX {
                                        r matches Ok(p) && p.method is Put && p.url@ == page_url(
                                            base_url_of(config.atlassian_domain@),
                                            id,
                                        ) && param_views(p.query@) == v2_params_of(
                                            jm(*args),
                                            views_of(env_custom_includes@),
                                        ) && (p.body matches Option::Some(b) && jm(b)
                                            == JsonV::Obj(
                                            seq![
                                                ("id"@, JsonV::Str(id)),
                                                ("title"@, JsonV::Str(t)),
                                                ("body"@, storage_body_json(c)),
                                                ("version"@, JsonV::Obj(
                                                    seq![
                                                        ("number"@, JsonV::Num(
                                                            dec_str((v + 1) as nat),
                                                        )),
                                                    ],
                                                )),
                                            ],
                                        ))
                                    } else {
                                        r matches Err(m) && m@ == "Failed to get current version"@
                                    },
                                    Option::None => r matches Err(m) && m@
                                        == "Failed to get current version"@,
                                },
                            }
                        },
                    },
                },
            },
    {
        let id = match get_str_arg(args, "page_id") {
            Some(i) => i,
            None => {
                return Err("Missing page_id".to_owned());
            },
        };
        let title = match get_str_arg(args, "title") {
            Some(t) => t,
            None => {
                return Err("Missing title".to_owned());
            },
        };
        let content = match get_str_arg(args, "content") {
            Some(c) => c,
            None => {
                return Err("Missing content".to_owned());
            },
        };
        if !current.success {
            let mut m = "Failed to get page for update: ".to_owned();
            append_str(&mut m, current.status.as_str());
            return Err(m);
        }
        let data = match crate::parse::parse_json(current.body.as_str()) {
            Some(d) => d,
            None => {
                return Err("Failed to parse response body".to_owned());
            },
        };
        let version = match version_exec(&data) {
            Some(v) => v,
            None => {
                return Err("Failed to get current version".to_owned());
            },
        };
        if version == u64::MAX {
            return Err("Failed to get current version".to_owned());
        }
        let url = page_url_exec(config, id.as_str());
        let query = v2_params_exec(args, env_custom_includes);
        let ghost idm = id@;
        let ghost tm = title@;
        let ghost cm = content@;
        let mut vnum: Vec<(String, Json)> = Vec::new();
        vnum.push(("number".to_owned(), Json::Num(crate::text::u64_to_string(version + 1))));
        let mut body: Vec<(String, Json)> = Vec::new();
        body.push(("id".to_owned(), Json::Str(id)));
        body.push(("title".to_owned(), Json::Str(title)));
        body.push(("body".to_owned(), build_storage_body(content)));
        body.push(("version".to_owned(), Json::Obj(vnum)));
        let b = Json::Obj(body);
        proof {
            lemma_jm_obj_index(vnum@);
            lemma_jm_obj_index(body@);
            assert(jm_obj(vnum@) =~~= seq![
                ("number"@, JsonV::Num(dec_str((version + 1) as nat))),
            ]);
            assert(jm_obj(body@).len() == 4);
            assert(jm_obj(body@)[0] == ("id"@, JsonV::Str(idm)));
            assert(jm_obj(body@)[1] == ("title"@, JsonV::Str(tm)));
            assert(jm_obj(body@)[2] == ("body"@, storage_body_json(cm)));
            assert(jm_obj(body@)[3] == ("version"@, JsonV::Obj(
                seq![("number"@, JsonV::Num(dec_str((version + 1) as nat)))],
            )));
            let target = seq![
                ("id"@, JsonV::Str(idm)),
                ("title"@, JsonV::Str(tm)),
                ("body"@, storage_body_json(cm)),
                ("version"@, JsonV::Obj(
                    seq![("number"@, JsonV::Num(dec_str((version + 1) as nat)))],
                )),
            ];
            assert(jm_obj(body@) =~= target);
            assert(jm(b) == JsonV::Obj(target));
        }
        Ok(HttpPlan { method: HttpMethod::Put, url, query, body: Some(b) })
    }

    /// Wraps the response: `{"success": true, "page": data}`.
    pub fn interpret(outcome: HttpOutcome) -> (r: Result<Json, String>)
        ensures
            wrap_interp(outcome, "Failed to update page: "@, false, "page"@, r),
    {
        interpret_wrapped(outcome, "Failed to update page: ", false, "page")
    }
}

} // verus!

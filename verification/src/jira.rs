//! Issue-tracker tools: request planning and response shaping for each
//! operation the gateway exposes.
//!
//! A handler turns validated arguments into an `HttpPlan`; the caller
//! performs the request and hands the `HttpOutcome` back to the
//! handler's interpreter, which builds the tool's JSON result.

pub mod field_filtering;

use vstd::prelude::*;
use crate::args::{str_arg, str_list_arg, u64_arg, get_str_arg, get_str_list_arg, get_u64_arg_or};
use crate::config::{Config, base_url_of};
use crate::http::{
    HttpMethod, HttpOutcome, HttpPlan, extract_interp, interpret_extracted, interpret_message,
    interpret_wrapped, message_interp, wrap_interp,
};
use crate::json::{Json, JsonV, jm, jm_obj, jm_arr, lemma_jm_obj_index, lemma_jm_arr_index};
use crate::scope::{scope_query, scoped_query};
use crate::text::{append_str, dec_str, spec_join, views_of};
use self::field_filtering::{apply_field_filtering_to_url, filtered_url_spec, resolve_search_fields, resolve_spec, opt_views};

verus! {

/// The rich-text document that carries a plain text, as the remote
/// API expects it: one paragraph of one text node.
pub open spec fn adf_json(text: Seq<char>) -> JsonV {
    JsonV::Obj(
        seq![
            ("type"@, JsonV::Str("doc"@)),
            ("version"@, JsonV::Num("1"@)),
            ("content"@, JsonV::Arr(
                seq![
                    JsonV::Obj(
                        seq![
                            ("type"@, JsonV::Str("paragraph"@)),
                            ("content"@, JsonV::Arr(
                                seq![
                                    JsonV::Obj(
                                        seq![
                                            ("type"@, JsonV::Str("text"@)),
                                            ("text"@, JsonV::Str(text)),
                                        ],
                                    ),
                                ],
                            )),
                        ],
                    ),
                ],
            )),
        ],
    )
}

/// Builds the rich-text document for a plain text.
pub fn build_adf(text: String) -> (r: Json)
    ensures
        jm(r) == adf_json(text@),
{
    let ghost tm = text@;
    let mut leaf: Vec<(String, Json)> = Vec::new();
    leaf.push(("type".to_owned(), Json::Str("text".to_owned())));
    leaf.push(("text".to_owned(), Json::Str(text)));
    let mut inner_arr: Vec<Json> = Vec::new();
    inner_arr.push(Json::Obj(leaf));
    let mut para: Vec<(String, Json)> = Vec::new();
    para.push(("type".to_owned(), Json::Str("paragraph".to_owned())));
    para.push(("content".to_owned(), Json::Arr(inner_arr)));
    let mut outer_arr: Vec<Json> = Vec::new();
    outer_arr.push(Json::Obj(para));
    let mut doc: Vec<(String, Json)> = Vec::new();
    doc.push(("type".to_owned(), Json::Str("doc".to_owned())));
    doc.push(("version".to_owned(), Json::Num("1".to_owned())));
    doc.push(("content".to_owned(), Json::Arr(outer_arr)));
    let r = Json::Obj(doc);
    proof {
        lemma_jm_obj_index(leaf@);
        lemma_jm_arr_index(inner_arr@);
        lemma_jm_obj_index(para@);
        lemma_jm_arr_index(outer_arr@);
        lemma_jm_obj_index(doc@);
        assert(jm_obj(leaf@) =~~= seq![("type"@, JsonV::Str("text"@)), ("text"@, JsonV::Str(tm))]);
        assert(jm_arr(inner_arr@) =~~= seq![adf_json(tm)->Obj_0[2].1->Arr_0[0]->Obj_0[1].1->Arr_0[0]]);
        assert(jm_obj(para@) =~~= adf_json(tm)->Obj_0[2].1->Arr_0[0]->Obj_0);
        assert(jm_arr(outer_arr@) =~~= adf_json(tm)->Obj_0[2].1->Arr_0);
        assert(jm_obj(doc@) =~~= adf_json(tm)->Obj_0);
        assert(jm(r) =~~= adf_json(tm));
    }
    r
}

/// The issue endpoint for a key: `{base}/rest/api/3/issue/{key}`.
pub open spec fn issue_url(base: Seq<char>, key: Seq<char>) -> Seq<char> {
    base + "/rest/api/3/issue/"@ + key
}

fn issue_url_exec(config: &Config, key: &str) -> (r: String)
    ensures
        r@ == issue_url(base_url_of(config.atlassian_domain@), key@),
{
    let mut url = config.get_atlassian_base_url();
    append_str(&mut url, "/rest/api/3/issue/");
    append_str(&mut url, key);
    url
}

/// Retrieves one issue by key.
pub struct GetIssueHandler;

impl GetIssueHandler {
    /// Plans the request: the issue endpoint with the essential-field
    /// selection; fails exactly when `issue_key` is missing.
    pub fn prepare(args: &Json, config: &Config) -> (r: Result<HttpPlan, String>)
        ensures
            match str_arg(jm(*args), "issue_key"@) {
                Option::None => r matches Err(m) && m@ == "Missing issue_key"@,
                Option::Some(k) => r matches Ok(p) && p.method is Get && p.url@
                    == filtered_url_spec(issue_url(base_url_of(config.atlassian_domain@), k))
                    && p.query@.len() == 0 && p.body is None,
            },
    {
        let key = match get_str_arg(args, "issue_key") {
            Some(k) => k,
            None => {
                return Err("Missing issue_key".to_owned());
            },
        };
        let base = issue_url_exec(config, key.as_str());
        let url = apply_field_filtering_to_url(base.as_str());
        Ok(HttpPlan { method: HttpMethod::Get, url, query: Vec::new(), body: None })
    }

    /// Wraps the response: `{"success": true, "issue": data}`.
    pub fn interpret(outcome: HttpOutcome) -> (r: Result<Json, String>)
        ensures
            wrap_interp(outcome, "Failed to get issue: "@, true, "issue"@, r),
    {
        interpret_wrapped(outcome, "Failed to get issue: ", true, "issue")
    }
}

/// Searches issues with a caller-supplied query.
pub struct SearchHandler;

impl SearchHandler {
    /// Plans the search: the query scoped to the configured projects,
    /// the resolved field list, and the caller's limit (default 20);
    /// fails exactly when `jql` is missing.
    pub fn prepare(args: &Json, config: &Config) -> (r: Result<HttpPlan, String>)
        ensures
            match str_arg(jm(*args), "jql"@) {
                Option::None => r matches Err(m) && m@ == "Missing jql"@,
                Option::Some(jql) => r matches Ok(p) && p.method is Get && p.url@ == base_url_of(
                    config.atlassian_domain@,
                ) + "/rest/api/3/search/jql"@ && p.body is None && crate::confluence::field_filtering::param_views(p.query@) == seq![
                    ("jql"@, scoped_query(
                        "project"@,
                        views_of(config.jira_projects_filter@),
                        jql,
                    )),
                    ("maxResults"@, dec_str(
                        (match u64_arg(jm(*args), "limit"@) {
                            Option::Some(v) => v,
                            Option::None => 20,
                        }) as nat,
                    )),
                    ("fields"@, spec_join(
                        resolve_spec(
                            str_list_arg(jm(*args), "fields"@),
                            opt_views(config.jira_search_default_fields),
                            views_of(config.jira_search_custom_fields@),
                        ),
                        ","@,
                    )),
                    ("expand"@, "-renderedFields"@),
                ],
            },
    {
        let jql = match get_str_arg(args, "jql") {
            Some(j) => j,
            None => {
                return Err("Missing jql".to_owned());
            },
        };
        let limit = get_u64_arg_or(args, "limit", 20);
        let api_fields = get_str_list_arg(args, "fields");
        let final_jql = scope_query(jql.as_str(), &config.jira_projects_filter, "project");
        let mut url = config.get_atlassian_base_url();
        append_str(&mut url, "/rest/api/3/search/jql");
        let fields = resolve_search_fields(api_fields, config);
        let fields_joined = crate::text::join_strings(&fields, ",");
        let mut query: Vec<(String, String)> = Vec::new();
        query.push(("jql".to_owned(), final_jql));
        query.push(("maxResults".to_owned(), crate::text::u64_to_string(limit)));
        query.push(("fields".to_owned(), fields_joined));
        query.push(("expand".to_owned(), "-renderedFields".to_owned()));
        proof {
            assert(crate::confluence::field_filtering::param_views(query@) =~= seq![
                ("jql"@, scoped_query(
                    "project"@,
                    views_of(config.jira_projects_filter@),
                    str_arg(jm(*args), "jql"@)->Some_0,
                )),
                ("maxResults"@, dec_str(
                    (match u64_arg(jm(*args), "limit"@) {
                        Option::Some(v) => v,
                        Option::None => 20,
                    }) as nat,
                )),
                ("fields"@, spec_join(
                    resolve_spec(
                        str_list_arg(jm(*args), "fields"@),
                        opt_views(config.jira_search_default_fields),
                        views_of(config.jira_search_custom_fields@),
                    ),
                    ","@,
                )),
                ("expand"@, "-renderedFields"@),
            ]);
        }
        Ok(HttpPlan { method: HttpMethod::Get, url, query, body: None })
    }

    /// Extracts the result: `{"success": true, "issues": …, "total": …}`.
    pub fn interpret(outcome: HttpOutcome) -> (r: Result<Json, String>)
        ensures
            extract_interp(
                outcome,
                "Search failed: "@,
                false,
                seq![("issues"@, "issues"@), ("total"@, "total"@)],
                r,
            ),
    {
        let mut fields: Vec<(String, String)> = Vec::new();
        fields.push(("issues".to_owned(), "issues".to_owned()));
        fields.push(("total".to_owned(), "total".to_owned()));
        let ghost fm = fields@.map_values(|f: (String, String)| (f.0@, f.1@));
        proof {
            assert(fm =~= seq![("issues"@, "issues"@), ("total"@, "total"@)]);
        }
        interpret_extracted(outcome, "Search failed: ", false, &fields)
    }
}

/// Creates an issue from the caller's fields.
pub struct CreateIssueHandler;

/// The body of a create-issue request: the project key, summary and
/// issue type as given (absent members ride as `null`), the
/// description as a rich-text document.
pub open spec fn create_issue_body(args: JsonV) -> JsonV {
    JsonV::Obj(
        seq![
            ("fields"@, JsonV::Obj(
                seq![
                    ("project"@, JsonV::Obj(
                        seq![("key"@, crate::args::index_of(args, "project_key"@))],
                    )),
                    ("summary"@, crate::args::index_of(args, "summary"@)),
                    ("issuetype"@, JsonV::Obj(
                        seq![("name"@, crate::args::index_of(args, "issue_type"@))],
                    )),
                    ("description"@, adf_json(
                        match str_arg(args, "description"@) {
                            Option::Some(d) => d,
                            Option::None => Seq::empty(),
                        },
                    )),
                ],
            )),
        ],
    )
}

impl CreateIssueHandler {
    /// Plans the creation: a post of the caller's fields to the issue
    /// endpoint with the essential-field selection.
    pub fn prepare(args: &Json, config: &Config) -> (r: Result<HttpPlan, String>)
        ensures
            r matches Ok(p) && p.method is Post && p.url@ == filtered_url_spec(
                base_url_of(config.atlassian_domain@) + "/rest/api/3/issue"@,
            ) && p.query@.len() == 0 && (p.body matches Option::Some(b) && jm(b)
                == create_issue_body(jm(*args))),
    {
        let mut base = config.get_atlassian_base_url();
        append_str(&mut base, "/rest/api/3/issue");
        let url = apply_field_filtering_to_url(base.as_str());
        let description = match get_str_arg(args, "description") {
            Some(d) => d,
            None => String::new(),
        };
        let project_key = match crate::args::get_member(args, "project_key") {
            Some(v) => v.duplicate(),
            None => Json::Null,
        };
        let summary = match crate::args::get_member(args, "summary") {
            Some(v) => v.duplicate(),
            None => Json::Null,
        };
        let issue_type = match crate::args::get_member(args, "issue_type") {
            Some(v) => v.duplicate(),
            None => Json::Null,
        };
        let mut project: Vec<(String, Json)> = Vec::new();
        project.push(("key".to_owned(), project_key));
        let mut issuetype: Vec<(String, Json)> = Vec::new();
        issuetype.push(("name".to_owned(), issue_type));
        let mut inner: Vec<(String, Json)> = Vec::new();
        inner.push(("project".to_owned(), Json::Obj(project)));
        inner.push(("summary".to_owned(), summary));
        inner.push(("issuetype".to_owned(), Json::Obj(issuetype)));
        inner.push(("description".to_owned(), build_adf(description)));
        let mut body: Vec<(String, Json)> = Vec::new();
        body.push(("fields".to_owned(), Json::Obj(inner)));
        let b = Json::Obj(body);
        proof {
            lemma_jm_obj_index(project@);
            lemma_jm_obj_index(issuetype@);
            lemma_jm_obj_index(inner@);
            lemma_jm_obj_index(body@);
            assert(jm_obj(project@) =~~= seq![
                ("key"@, crate::args::index_of(jm(*args), "project_key"@)),
            ]);
            assert(jm_obj(issuetype@) =~~= seq![
                ("name"@, crate::args::index_of(jm(*args), "issue_type"@)),
            ]);
            assert(jm_obj(inner@) =~~= create_issue_body(jm(*args))->Obj_0[0].1->Obj_0);
            assert(jm_obj(body@) =~~= create_issue_body(jm(*args))->Obj_0);
            assert(jm(b) =~~= create_issue_body(jm(*args)));
        }
        Ok(HttpPlan { method: HttpMethod::Post, url, query: Vec::new(), body: Some(b) })
    }

    /// Wraps the response: `{"success": true, "issue": data}`.
    pub fn interpret(outcome: HttpOutcome) -> (r: Result<Json, String>)
        ensures
            wrap_interp(outcome, "Failed to create issue: "@, false, "issue"@, r),
    {
        interpret_wrapped(outcome, "Failed to create issue: ", false, "issue")
    }
}

/// Updates an issue's fields.
pub struct UpdateIssueHandler;

impl UpdateIssueHandler {
    /// Plans the update: a put of the caller's `fields` member to the
    /// issue endpoint; fails exactly when `issue_key` is missing.
    pub fn prepare(args: &Json, config: &Config) -> (r: Result<HttpPlan, String>)
        ensures
            match str_arg(jm(*args), "issue_key"@) {
                Option::None => r matches Err(m) && m@ == "Missing issue_key"@,
                Option::Some(k) => r matches Ok(p) && p.method is Put && p.url@ == issue_url(
                    base_url_of(config.atlassian_domain@),
                    k,
                ) && p.query@.len() == 0 && (p.body matches Option::Some(b) && jm(b) == JsonV::Obj(
                    seq![("fields"@, crate::args::index_of(jm(*args), "fields"@))],
                )),
            },
    {
        let key = match get_str_arg(args, "issue_key") {
            Some(k) => k,
            None => {
                return Err("Missing issue_key".to_owned());
            },
        };
        let url = issue_url_exec(config, key.as_str());
        let fields = match crate::args::get_member(args, "fields") {
            Some(v) => v.duplicate(),
            None => Json::Null,
        };
        let mut body: Vec<(String, Json)> = Vec::new();
        body.push(("fields".to_owned(), fields));
        let b = Json::Obj(body);
        proof {
            lemma_jm_obj_index(body@);
            assert(jm(b)->Obj_0 =~= seq![("fields"@, crate::args::index_of(jm(*args), "fields"@))]);
        }
        Ok(HttpPlan { method: HttpMethod::Put, url, query: Vec::new(), body: Some(b) })
    }

    /// Acknowledges the update: `{"success": true, "message": "Issue {key} updated"}`.
    pub fn interpret(issue_key: &str, outcome: HttpOutcome) -> (r: Result<Json, String>)
        ensures
            message_interp(
                outcome,
                "Failed to update issue: "@,
                "Issue "@ + issue_key@ + " updated"@,
                r,
            ),
    {
        let mut msg = "Issue ".to_owned();
        append_str(&mut msg, issue_key);
        append_str(&mut msg, " updated");
        interpret_message(outcome, "Failed to update issue: ", msg)
    }
}

/// Adds a comment to an issue.
pub struct AddCommentHandler;

impl AddCommentHandler {
    /// Plans the comment: a post of the rich-text body to the issue's
    /// comment endpoint; fails exactly when `issue_key` or `comment`
    /// is missing, in that order.
    pub fn prepare(args: &Json, config: &Config) -> (r: Result<HttpPlan, String>)
        ensures
            match str_arg(jm(*args), "issue_key"@) {
                Option::None => r matches Err(m) && m@ == "Missing issue_key"@,
                Option::Some(k) => match str_arg(jm(*args), "comment"@) {
                    Option::None => r matches Err(m) && m@ == "Missing comment"@,
                    Option::Some(c) => r matches Ok(p) && p.method is Post && p.url@
                        == filtered_url_spec(
                        issue_url(base_url_of(config.atlassian_domain@), k) + "/comment"@,
                    ) && p.query@.len() == 0 && (p.body matches Option::Some(b) && jm(b)
                        == JsonV::Obj(seq![("body"@, adf_json(c))])),
                },
            },
    {
        let key = match get_str_arg(args, "issue_key") {
            Some(k) => k,
            None => {
                return Err("Missing issue_key".to_owned());
            },
        };
        let comment = match get_str_arg(args, "comment") {
            Some(c) => c,
            None => {
                return Err("Missing comment".to_owned());
            },
        };
        let mut base = issue_url_exec(config, key.as_str());
        append_str(&mut base, "/comment");
        let url = apply_field_filtering_to_url(base.as_str());
        let mut body: Vec<(String, Json)> = Vec::new();
        body.push(("body".to_owned(), build_adf(comment)));
        let b = Json::Obj(body);
        proof {
            lemma_jm_obj_index(body@);
            assert(jm(b)->Obj_0 =~= seq![
                ("body"@, adf_json(str_arg(jm(*args), "comment"@)->Some_0)),
            ]);
        }
        Ok(HttpPlan { method: HttpMethod::Post, url, query: Vec::new(), body: Some(b) })
    }

    /// Wraps the response: `{"success": true, "comment": data}`.
    pub fn interpret(outcome: HttpOutcome) -> (r: Result<Json, String>)
        ensures
            wrap_interp(outcome, "Failed to add comment: "@, true, "comment"@, r),
    {
        interpret_wrapped(outcome, "Failed to add comment: ", true, "comment")
    }
}

/// Rewrites an existing comment on an issue.
pub struct UpdateCommentHandler;

impl UpdateCommentHandler {
    /// Plans the rewrite: a put of the rich-text body to the comment's
    /// endpoint; fails exactly when `issue_key`, `comment_id` or
    /// `body` is missing, in that order.
    pub fn prepare(args: &Json, config: &Config) -> (r: Result<HttpPlan, String>)
        ensures
            match str_arg(jm(*args), "issue_key"@) {
                Option::None => r matches Err(m) && m@ == "Missing issue_key"@,
                Option::Some(k) => match str_arg(jm(*args), "comment_id"@) {
                    Option::None => r matches Err(m) && m@ == "Missing comment_id"@,
                    Option::Some(cid) => match str_arg(jm(*args), "body"@) {
                        Option::None => r matches Err(m) && m@ == "Missing body"@,
                        Option::Some(text) => r matches Ok(p) && p.method is Put && p.url@
                            == issue_url(base_url_of(config.atlassian_domain@), k) + "/comment/"@
                            + cid && p.query@.len() == 0 && (p.body matches Option::Some(b) && jm(b)
                            == JsonV::Obj(seq![("body"@, adf_json(text))])),
                    },
                },
            },
    {
        let key = match get_str_arg(args, "issue_key") {
            Some(k) => k,
            None => {
                return Err("Missing issue_key".to_owned());
            },
        };
        let comment_id = match get_str_arg(args, "comment_id") {
            Some(c) => c,
            None => {
                return Err("Missing comment_id".to_owned());
            },
        };
        let text = match get_str_arg(args, "body") {
            Some(t) => t,
            None => {
                return Err("Missing body".to_owned());
            },
        };
        let mut url = issue_url_exec(config, key.as_str());
        append_str(&mut url, "/comment/");
        append_str(&mut url, comment_id.as_str());
        let mut body: Vec<(String, Json)> = Vec::new();
        body.push(("body".to_owned(), build_adf(text)));
        let b = Json::Obj(body);
        proof {
            lemma_jm_obj_index(body@);
            assert(jm(b)->Obj_0 =~= seq![("body"@, adf_json(str_arg(jm(*args), "body"@)->Some_0))]);
        }
        Ok(HttpPlan { method: HttpMethod::Put, url, query: Vec::new(), body: Some(b) })
    }

    /// Wraps the response: `{"success": true, "comment": data}`.
    pub fn interpret(outcome: HttpOutcome) -> (r: Result<Json, String>)
        ensures
            wrap_interp(outcome, "Failed to update comment: "@, true, "comment"@, r),
    {
        interpret_wrapped(outcome, "Failed to update comment: ", true, "comment")
    }
}

/// Moves an issue through a workflow transition.
pub struct TransitionIssueHandler;

impl TransitionIssueHandler {
    /// Plans the transition: a post naming the transition id; fails
    /// exactly when `issue_key` or `transition_id` is missing, in
    /// that order.
    pub fn prepare(args: &Json, config: &Config) -> (r: Result<HttpPlan, String>)
        ensures
            match str_arg(jm(*args), "issue_key"@) {
                Option::None => r matches Err(m) && m@ == "Missing issue_key"@,
                Option::Some(k) => match str_arg(jm(*args), "transition_id"@) {
                    Option::None => r matches Err(m) && m@ == "Missing transition_id"@,
                    Option::Some(tid) => r matches Ok(p) && p.method is Post && p.url@
                        == issue_url(base_url_of(config.atlassian_domain@), k) + "/transitions"@
                        && p.query@.len() == 0 && (p.body matches Option::Some(b) && jm(b)
                        == JsonV::Obj(
                        seq![
                            ("transition"@, JsonV::Obj(seq![("id"@, JsonV::Str(tid))])),
                        ],
                    )),
                },
            },
    {
        let key = match get_str_arg(args, "issue_key") {
            Some(k) => k,
            None => {
                return Err("Missing issue_key".to_owned());
            },
        };
        let tid = match get_str_arg(args, "transition_id") {
            Some(t) => t,
            None => {
                return Err("Missing transition_id".to_owned());
            },
        };
        let mut url = issue_url_exec(config, key.as_str());
        append_str(&mut url, "/transitions");
        let mut trans: Vec<(String, Json)> = Vec::new();
        trans.push(("id".to_owned(), Json::Str(tid)));
        let mut body: Vec<(String, Json)> = Vec::new();
        body.push(("transition".to_owned(), Json::Obj(trans)));
        let b = Json::Obj(body);
        proof {
            lemma_jm_obj_index(body@);
            lemma_jm_obj_index(trans@);
            assert(jm_obj(trans@) =~= seq![
                ("id"@, JsonV::Str(str_arg(jm(*args), "transition_id"@)->Some_0)),
            ]);
            assert(jm(b)->Obj_0 =~= seq![("transition"@, JsonV::Obj(jm_obj(trans@)))]);
        }
        Ok(HttpPlan { method: HttpMethod::Post, url, query: Vec::new(), body: Some(b) })
    }

    /// Acknowledges the transition:
    /// `{"success": true, "message": "Issue {key} transitioned"}`.
    pub fn interpret(issue_key: &str, outcome: HttpOutcome) -> (r: Result<Json, String>)
        ensures
            message_interp(
                outcome,
                "Failed to transition issue: "@,
                "Issue "@ + issue_key@ + " transitioned"@,
                r,
            ),
    {
        let mut msg = "Issue ".to_owned();
        append_str(&mut msg, issue_key);
        append_str(&mut msg, " transitioned");
        interpret_message(outcome, "Failed to transition issue: ", msg)
    }
}

/// Lists the transitions available to an issue.
pub struct GetTransitionsHandler;

impl GetTransitionsHandler {
    /// Plans the listing: the issue's transitions endpoint with the
    /// essential-field selection; fails exactly when `issue_key` is
    /// missing.
    pub fn prepare(args: &Json, config: &Config) -> (r: Result<HttpPlan, String>)
        ensures
            match str_arg(jm(*args), "issue_key"@) {
                Option::None => r matches Err(m) && m@ == "Missing issue_key"@,
                Option::Some(k) => r matches Ok(p) && p.method is Get && p.url@
                    == filtered_url_spec(
                    issue_url(base_url_of(config.atlassian_domain@), k) + "/transitions"@,
                ) && p.query@.len() == 0 && p.body is None,
            },
    {
        let key = match get_str_arg(args, "issue_key") {
            Some(k) => k,
            None => {
                return Err("Missing issue_key".to_owned());
            },
        };
        let mut base = issue_url_exec(config, key.as_str());
        append_str(&mut base, "/transitions");
        let url = apply_field_filtering_to_url(base.as_str());
        Ok(HttpPlan { method: HttpMethod::Get, url, query: Vec::new(), body: None })
    }

    /// Extracts the result: `{"success": true, "transitions": …}`.
    pub fn interpret(outcome: HttpOutcome) -> (r: Result<Json, String>)
        ensures
            extract_interp(
                outcome,
                "Failed to get transitions: "@,
                true,
                seq![("transitions"@, "transitions"@)],
                r,
            ),
    {
        let mut fields: Vec<(String, String)> = Vec::new();
        fields.push(("transitions".to_owned(), "transitions".to_owned()));
        let ghost fm = fields@.map_values(|f: (String, String)| (f.0@, f.1@));
        proof {
            assert(fm =~= seq![("transitions"@, "transitions"@)]);
        }
        interpret_extracted(outcome, "Failed to get transitions: ", true, &fields)
    }
}

} // verus!

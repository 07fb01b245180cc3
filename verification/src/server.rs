//! The protocol router and session state machine.
//!
//! A server starts uninitialized.  The `initialized` notification (or
//! its namespaced alias) moves it, once and for all, to the
//! initialized state; listing and calling tools before that fails.
//! Backend work never happens here: a valid call produces a
//! `RouteOutcome::Backend` instruction, the caller performs the
//! operation, and `finish_call` turns its outcome into the response
//! — or into silence, when the call was a notification.

use vstd::prelude::*;
use crate::config::Config;
use crate::json::{Json, JsonV, jm, jm_obj, jm_arr, lookup, lemma_jm_obj_index, lemma_jm_arr_index, obj_get};
use crate::optimizer::{ResponseOptimizer, opt_val, excl_set, names_set, default_exclude_fields_spec};
use crate::parse::{parse_json, sp_parse};
use crate::protocol::{
    JsonRpcError, JsonRpcRequest, JsonRpcResponse, ReqV, RespV, resp_model, req_of, req_model,
    extract_request, resp_json, CallToolResult, ToolContent, call_result_json, content_json,
    ClientCapabilities, ClientInfo, InitializeRequest, InitializeResult, ServerCapabilities,
    ServerInfo, INTERNAL_ERROR, INVALID_PARAMS, INVALID_REQUEST, METHOD_NOT_FOUND, PARSE_ERROR,
};
use crate::registry::{
    schema_wf, tool_json, list_tools, registry_names, spec_registered, is_registered,
    spec_is_read_tool, is_read_tool, tool_descriptor_spec, tool_json_of, tool_model,
    lemma_tool_json_model,
};
use crate::text::{starts_with_seq, str_eq, str_starts_with};
use crate::unparse::{pser, ser, to_json_string, to_pretty_string};

verus! {

/// A backend operation the caller must perform to complete a call.
pub struct PendingCall {
    pub name: String,
    pub arguments: Json,
    pub id: Option<Json>,
}

/// What routing one request decided.
pub enum RouteOutcome {
    /// Send this response.
    Reply(JsonRpcResponse),
    /// A pure notification: send nothing.
    NoReply,
    /// Perform the backend operation, then build the response with
    /// `finish_call`.
    Backend(PendingCall),
}

/// The gateway: its configuration and the session flag.
pub struct McpServer {
    pub config: Config,
    pub initialized: bool,
}

/// The model of an optional JSON value.
pub open spec fn opt_jm(o: Option<Json>) -> Option<JsonV> {
    match o {
        Option::Some(v) => Option::Some(jm(v)),
        Option::None => Option::None,
    }
}

/// A response that carries exactly this error and no result.
pub open spec fn err_resp(m: RespV, code: int, msg: Seq<char>, id: Option<JsonV>) -> bool {
    &&& m.result is None
    &&& m.error matches Option::Some(e) && e.code == code && e.message == msg && e.data is None
    &&& m.id == id
}

/// The protocol version named by a handshake body, when the body has
/// the required shape: a version string under `protocolVersion` (or
/// `protocol_version`), a `capabilities` object, and a client-info
/// object with `name` and `version` strings.
pub open spec fn init_req_version(p: JsonV) -> Option<Seq<char>> {
    match p {
        JsonV::Obj(fs) => {
            let pv = match lookup(fs, "protocolVersion"@) {
                Option::Some(JsonV::Str(v)) => Option::Some(v),
                _ => match lookup(fs, "protocol_version"@) {
                    Option::Some(JsonV::Str(v)) => Option::Some(v),
                    _ => Option::None,
                },
            };
            let caps_ok = match lookup(fs, "capabilities"@) {
                Option::Some(JsonV::Obj(c)) => true,
                _ => false,
            };
            let info_fields = match lookup(fs, "clientInfo"@) {
                Option::Some(JsonV::Obj(cf)) => Option::Some(cf),
                _ => match lookup(fs, "client_info"@) {
                    Option::Some(JsonV::Obj(cf)) => Option::Some(cf),
                    _ => Option::None,
                },
            };
            let info_ok = match info_fields {
                Option::Some(cf) => (lookup(cf, "name"@) matches Option::Some(JsonV::Str(n)))
                    && (lookup(cf, "version"@) matches Option::Some(JsonV::Str(v))),
                Option::None => false,
            };
            if pv is Some && caps_ok && info_ok {
                pv
            } else {
                Option::None
            }
        },
        _ => Option::None,
    }
}

/// The negotiated protocol version: a caller naming a newer dated
/// version gets the newer one, any other recognizable request the
/// older one, and an absent or unreadable body the newer by default.
pub open spec fn negotiated_version(params: Option<JsonV>) -> Seq<char> {
    match params {
        Option::None => "2025-06-18"@,
        Option::Some(p) => match init_req_version(p) {
            Option::Some(pv) => if starts_with_seq(pv, "2025"@) {
                "2025-06-18"@
            } else {
                "2024-11-05"@
            },
            Option::None => "2025-06-18"@,
        },
    }
}

/// The handshake result body for a negotiated version: no tool-level
/// capabilities and an empty experimental set, deliberately minimal.
pub open spec fn init_result_json(version: Seq<char>) -> JsonV {
    JsonV::Obj(
        seq![
            ("protocolVersion"@, JsonV::Str(version)),
            ("capabilities"@, JsonV::Obj(
                seq![
                    ("tools"@, JsonV::Obj(Seq::empty())),
                    ("experimental"@, JsonV::Obj(Seq::empty())),
                ],
            )),
            ("serverInfo"@, JsonV::Obj(
                seq![("name"@, JsonV::Str("mcp-atlassian"@)), ("version"@, JsonV::Str("0.1.0"@))],
            )),
        ],
    )
}

/// The methods that require a completed handshake.
pub open spec fn gated_method(m: Seq<char>) -> bool {
    m == "tools/list"@ || m == "tools/call"@ || m == "prompts/list"@ || m == "resources/list"@
}

/// The six recognized method names are pairwise distinct.
proof fn lemma_method_names_distinct()
    ensures
        "initialize"@ != "initialized"@,
        "initialize"@ != "notifications/initialized"@,
        "initialized"@ != "notifications/initialized"@,
        !gated_method("initialize"@),
        !gated_method("initialized"@),
        !gated_method("notifications/initialized"@),
        "tools/list"@ != "tools/call"@,
        "tools/list"@ != "prompts/list"@,
        "tools/list"@ != "resources/list"@,
        "tools/call"@ != "prompts/list"@,
        "tools/call"@ != "resources/list"@,
        "prompts/list"@ != "resources/list"@,
{
    reveal_strlit("initialize");
    reveal_strlit("initialized");
    reveal_strlit("notifications/initialized");
    reveal_strlit("tools/list");
    reveal_strlit("tools/call");
    reveal_strlit("prompts/list");
    reveal_strlit("resources/list");
    assert("initialize"@.len() == 10);
    assert("initialized"@.len() == 11);
    assert("notifications/initialized"@.len() == 25);
    assert("tools/list"@.len() == 10);
    assert("tools/call"@.len() == 10);
    assert("prompts/list"@.len() == 12);
    assert("resources/list"@.len() == 14);
    assert("initialize"@[0] == 'i');
    assert("tools/list"@[0] == 't');
    assert("tools/call"@[0] == 't');
    assert("tools/list"@[6] == 'l');
    assert("tools/call"@[6] == 'c');
}

/// The call parameters a JSON value describes: an object with a
/// `name` string and an `arguments` member.
pub open spec fn call_req_of(p: JsonV) -> Option<(Seq<char>, JsonV)> {
    match p {
        JsonV::Obj(fs) => match lookup(fs, "name"@) {
            Option::Some(JsonV::Str(n)) => match lookup(fs, "arguments"@) {
                Option::Some(a) => Option::Some((n, a)),
                Option::None => Option::None,
            },
            _ => Option::None,
        },
        _ => Option::None,
    }
}

/// The exact listing payload for a configuration: the wire form of
/// every registered tool's descriptor, in registration order.
pub open spec fn tools_payload_json(config: &Config) -> JsonV {
    JsonV::Obj(
        seq![
            ("tools"@, JsonV::Arr(
                Seq::new(
                    registry_names().len() as nat,
                    |i: int| tool_json_of(tool_descriptor_spec(registry_names()[i], config)),
                ),
            )),
        ],
    )
}

/// The empty listing payload for prompts or resources.
pub open spec fn empty_list_json(key: Seq<char>) -> JsonV {
    JsonV::Obj(seq![(key, JsonV::Arr(Seq::empty()))])
}

/// The exclude rules the configuration gives the optimizer.
pub open spec fn exclude_rules(cfg: &Config) -> Set<Seq<char>> {
    match cfg.response_exclude_fields {
        Option::Some(f) => excl_set(f@),
        Option::None => names_set(default_exclude_fields_spec()),
    }
}

/// A backend result as the caller sees it: read-class tools get the
/// optimizer pass, everything else is returned untouched.
pub open spec fn optimized_result(name: Seq<char>, data: JsonV, cfg: &Config) -> JsonV {
    if spec_is_read_tool(name) {
        opt_val(data, exclude_rules(cfg), true)
    } else {
        data
    }
}

/// The text a result is carried as: a string result rides as itself,
/// anything else is pretty-printed.
pub open spec fn text_of(v: JsonV) -> Seq<char> {
    match v {
        JsonV::Str(s) => s,
        _ => pser(v, Seq::empty()),
    }
}

/// The content envelope for a call result text.
pub open spec fn call_content_json(text: Seq<char>) -> JsonV {
    JsonV::Obj(
        seq![
            ("content"@, JsonV::Arr(
                seq![
                    JsonV::Obj(
                        seq![("type"@, JsonV::Str("text"@)), ("text"@, JsonV::Str(text))],
                    ),
                ],
            )),
        ],
    )
}

impl InitializeResult {
    /// The wire form of the handshake result.
    pub fn to_json(self) -> (r: Json)
        ensures
            jm(r) matches JsonV::Obj(fs) && fs == seq![
                ("protocolVersion"@, JsonV::Str(self.protocol_version@)),
                ("capabilities"@, JsonV::Obj(
                    seq![
                        ("tools"@, JsonV::Obj(jm_obj(self.capabilities.tools@))),
                        ("experimental"@, JsonV::Obj(jm_obj(self.capabilities.experimental@))),
                    ],
                )),
                ("serverInfo"@, JsonV::Obj(
                    seq![
                        ("name"@, JsonV::Str(self.server_info.name@)),
                        ("version"@, JsonV::Str(self.server_info.version@)),
                    ],
                )),
            ],
    {
        let ghost model = self;
        let mut caps: Vec<(String, Json)> = Vec::new();
        caps.push(("tools".to_owned(), Json::Obj(self.capabilities.tools)));
        caps.push(("experimental".to_owned(), Json::Obj(self.capabilities.experimental)));
        let mut info: Vec<(String, Json)> = Vec::new();
        info.push(("name".to_owned(), Json::Str(self.server_info.name)));
        info.push(("version".to_owned(), Json::Str(self.server_info.version)));
        let mut fs: Vec<(String, Json)> = Vec::new();
        fs.push(("protocolVersion".to_owned(), Json::Str(self.protocol_version)));
        fs.push(("capabilities".to_owned(), Json::Obj(caps)));
        fs.push(("serverInfo".to_owned(), Json::Obj(info)));
        proof {
            lemma_jm_obj_index(fs@);
            lemma_jm_obj_index(caps@);
            lemma_jm_obj_index(info@);
            assert(jm_obj(caps@) =~= seq![
                ("tools"@, JsonV::Obj(jm_obj(model.capabilities.tools@))),
                ("experimental"@, JsonV::Obj(jm_obj(model.capabilities.experimental@))),
            ]);
            assert(jm_obj(info@) =~= seq![
                ("name"@, JsonV::Str(model.server_info.name@)),
                ("version"@, JsonV::Str(model.server_info.version@)),
            ]);
            assert(jm_obj(fs@) =~= seq![
                ("protocolVersion"@, JsonV::Str(model.protocol_version@)),
                ("capabilities"@, JsonV::Obj(jm_obj(caps@))),
                ("serverInfo"@, JsonV::Obj(jm_obj(info@))),
            ]);
        }
        Json::Obj(fs)
    }
}

/// Reads a handshake body.  The version string may sit under either
/// spelling of its key; the capabilities member must be an object; the
/// client-info object must name the client and its version.
pub fn extract_initialize(p: &Json) -> (r: Option<InitializeRequest>)
    ensures
        match r {
            Some(ir) => init_req_version(jm(*p)) == Option::Some(ir.protocol_version@),
            None => init_req_version(jm(*p)) is None,
        },
{
    let fs = match p {
        Json::Obj(fs) => fs,
        _ => {
            return None;
        },
    };
    let pv: String = match obj_get(fs, "protocolVersion") {
        Some(Json::Str(v)) => v.clone(),
        _ => match obj_get(fs, "protocol_version") {
            Some(Json::Str(v)) => v.clone(),
            _ => {
                return None;
            },
        },
    };
    let caps = match obj_get(fs, "capabilities") {
        Some(Json::Obj(cf)) => cf,
        _ => {
            return None;
        },
    };
    let experimental = match obj_get(caps, "experimental") {
        Some(Json::Obj(e)) => {
            let mut copied: Vec<(String, Json)> = Vec::new();
            let mut i: usize = 0;
            while i < e.len()
                decreases e@.len() - i,
            {
                copied.push((e[i].0.clone(), e[i].1.duplicate()));
                i = i + 1;
            }
            copied
        },
        _ => Vec::new(),
    };
    let info = match obj_get(fs, "clientInfo") {
        Some(Json::Obj(cf)) => cf,
        _ => match obj_get(fs, "client_info") {
            Some(Json::Obj(cf)) => cf,
            _ => {
                return None;
            },
        },
    };
    let name = match obj_get(info, "name") {
        Some(Json::Str(n)) => n.clone(),
        _ => {
            return None;
        },
    };
    let version = match obj_get(info, "version") {
        Some(Json::Str(v)) => v.clone(),
        _ => {
            return None;
        },
    };
    Some(
        InitializeRequest {
            protocol_version: pv,
            capabilities: ClientCapabilities { experimental },
            client_info: ClientInfo { name, version },
        },
    )
}

/// The negotiated version for a handshake body.
fn negotiate_version(params: &Option<Json>) -> (r: String)
    ensures
        r@ == negotiated_version(opt_jm(*params)),
{
    let p = match params {
        Some(p) => p,
        None => {
            return crate::protocol::PROTOCOL_VERSION_2025.to_owned();
        },
    };
    let init_req = match extract_initialize(p) {
        Some(ir) => ir,
        None => {
            return crate::protocol::PROTOCOL_VERSION_2025.to_owned();
        },
    };
    if str_starts_with(init_req.protocol_version.as_str(), "2025") {
        crate::protocol::PROTOCOL_VERSION_2025.to_owned()
    } else {
        crate::protocol::PROTOCOL_VERSION.to_owned()
    }
}

impl McpServer {
    /// A gateway over this configuration, not yet initialized.
    pub fn new(config: Config) -> (r: Self)
        ensures
            r.config == config,
            !r.initialized,
    {
        McpServer { config, initialized: false }
    }

    /// Serves the handshake request: negotiates the version and
    /// advertises the minimal capability set.
    fn handle_initialize(&self, req: JsonRpcRequest) -> (r: JsonRpcResponse)
        ensures
            resp_model(r).error is None,
            resp_model(r).id == req_model(req).id,
            resp_model(r).result matches Option::Some(v) && v == init_result_json(
                negotiated_version(req_model(req).params),
            ),
    {
        let version = negotiate_version(&req.params);
        let result = InitializeResult {
            protocol_version: version,
            capabilities: ServerCapabilities { tools: Vec::new(), experimental: Vec::new() },
            server_info: ServerInfo { name: "mcp-atlassian".to_owned(), version: "0.1.0".to_owned() },
        };
        let ghost rm = result;
        let payload = result.to_json();
        proof {
            assert(jm_obj(rm.capabilities.tools@) =~= Seq::<(Seq<char>, JsonV)>::empty());
            assert(jm_obj(rm.capabilities.experimental@) =~= Seq::<(Seq<char>, JsonV)>::empty());
            assert(jm(payload) =~= init_result_json(negotiated_version(req_model(req).params)));
        }
        JsonRpcResponse::success(req.id, payload)
    }

    /// Serves a listing request: exactly one descriptor per registered
    /// tool, in registration order.
    fn handle_list_tools(&self, req: JsonRpcRequest) -> (r: JsonRpcResponse)
        ensures
            resp_model(r).error is None,
            resp_model(r).id == req_model(req).id,
            resp_model(r).result == Option::Some(tools_payload_json(&self.config)),
    {
        let result = crate::registry::ListToolsResult { tools: list_tools(&self.config) };
        let tools = result.tools;
        let mut arr: Vec<Json> = Vec::new();
        let mut i: usize = 0;
        while i < tools.len()
            invariant
                i <= tools@.len(),
                tools@.len() == registry_names().len(),
                forall|j: int| 0 <= j < tools@.len() ==> schema_wf(#[trigger] tools@[j]),
                forall|j: int| 0 <= j < tools@.len() ==> tool_model(#[trigger] tools@[j])
                    == tool_descriptor_spec(registry_names()[j], &self.config),
                arr@.len() == i,
                forall|j: int| 0 <= j < i ==> jm(#[trigger] arr@[j]) == tool_json_of(
                    tool_descriptor_spec(registry_names()[j], &self.config),
                ),
            decreases tools@.len() - i,
        {
            let tj = tool_json(&tools[i]);
            proof {
                lemma_tool_json_model(tools@[i as int]);
            }
            arr.push(tj);
            i = i + 1;
        }
        let mut fs: Vec<(String, Json)> = Vec::new();
        fs.push(("tools".to_owned(), Json::Arr(arr)));
        let payload = Json::Obj(fs);
        proof {
            lemma_jm_obj_index(fs@);
            lemma_jm_arr_index(fs@[0].1->Arr_0@);
            assert(jm_arr(fs@[0].1->Arr_0@) =~= Seq::new(
                registry_names().len() as nat,
                |j: int| tool_json_of(tool_descriptor_spec(registry_names()[j], &self.config)),
            ));
            assert(jm_obj(fs@) =~= seq![
                ("tools"@, JsonV::Arr(
                    Seq::new(
                        registry_names().len() as nat,
                        |j: int| tool_json_of(
                            tool_descriptor_spec(registry_names()[j], &self.config),
                        ),
                    ),
                )),
            ]);
            assert(jm(payload) =~= tools_payload_json(&self.config));
        }
        JsonRpcResponse::success(req.id, payload)
    }

    /// Routes one line of request text.  Parsing, the envelope check,
    /// the session gate and dispatch all happen here; only a valid
    /// tool call leaves work for the caller.
    pub fn process_request(&mut self, input: &str) -> (r: RouteOutcome)
        ensures
            final(self).config == old(self).config,
            // the session flag is written once and never reset
            old(self).initialized ==> final(self).initialized,
            ({
                let env = match sp_parse(input@) {
                    Option::Some(j) => req_of(j),
                    Option::None => Option::None,
                };
                match env {
                    Option::None => final(self).initialized == old(self).initialized && (
                    r matches RouteOutcome::Reply(resp) && err_resp(
                        resp_model(resp),
                        PARSE_ERROR as int,
                        "Parse error"@,
                        Option::None,
                    )),
                    Option::Some(q) => {
                        &&& (q.jsonrpc != "2.0"@ ==> final(self).initialized == old(self).initialized && (r matches RouteOutcome::Reply(resp) && err_resp(
                            resp_model(resp),
                            INVALID_REQUEST as int,
                            "Invalid request"@,
                            q.id,
                        )))
                        &&& (q.jsonrpc == "2.0"@ && q.method == "initialize"@ ==> final(self).initialized == old(self).initialized && (
                        r matches RouteOutcome::Reply(resp) && resp_model(resp).error is None
                            && resp_model(resp).id == q.id && (resp_model(resp).result
                            matches Option::Some(v) && v == init_result_json(
                            negotiated_version(q.params),
                        ))))
                        &&& (q.jsonrpc == "2.0"@ && (q.method == "initialized"@ || q.method
                            == "notifications/initialized"@) ==> final(self).initialized && (
                        match q.id {
                            Option::None => r is NoReply,
                            Option::Some(idv) => r matches RouteOutcome::Reply(resp)
                                && resp_model(resp).error is None && resp_model(resp).id
                                == Option::Some(idv) && resp_model(resp).result
                                == Option::Some(JsonV::Null),
                        }))
                        &&& (q.jsonrpc == "2.0"@ && gated_method(q.method) && !old(self).initialized ==> final(self).initialized == old(self).initialized && (
                        r matches RouteOutcome::Reply(resp) && err_resp(
                            resp_model(resp),
                            INTERNAL_ERROR as int,
                            "Server not initialized"@,
                            q.id,
                        )))
                        &&& (q.jsonrpc == "2.0"@ && q.method == "tools/list"@ && old(self).initialized ==> final(self).initialized && (
                        r matches RouteOutcome::Reply(resp) && resp_model(resp).error is None
                            && resp_model(resp).id == q.id && resp_model(resp).result
                            == Option::Some(tools_payload_json(&old(self).config))))
                        &&& (q.jsonrpc == "2.0"@ && q.method == "prompts/list"@ && old(self).initialized ==> (r matches RouteOutcome::Reply(resp) && resp_model(
                            resp,
                        ).error is None && resp_model(resp).id == q.id && resp_model(resp).result
                            == Option::Some(empty_list_json("prompts"@))))
                        &&& (q.jsonrpc == "2.0"@ && q.method == "resources/list"@ && old(self).initialized ==> (r matches RouteOutcome::Reply(resp) && resp_model(
                            resp,
                        ).error is None && resp_model(resp).id == q.id && resp_model(resp).result
                            == Option::Some(empty_list_json("resources"@))))
                        &&& (q.jsonrpc == "2.0"@ && q.method == "tools/call"@ && old(self).initialized ==> match q.params {
                            Option::None => r matches RouteOutcome::Reply(resp) && err_resp(
                                resp_model(resp),
                                INVALID_PARAMS as int,
                                "Missing params"@,
                                q.id,
                            ),
                            Option::Some(p) => match call_req_of(p) {
                                Option::None => r matches RouteOutcome::Reply(resp) && err_resp(
                                    resp_model(resp),
                                    INVALID_PARAMS as int,
                                    "Invalid tool call parameters"@,
                                    q.id,
                                ),
                                Option::Some(nc) => if !spec_registered(nc.0) {
                                    r matches RouteOutcome::Reply(resp) && err_resp(
                                        resp_model(resp),
                                        INTERNAL_ERROR as int,
                                        "Tool not found: "@ + nc.0,
                                        q.id,
                                    )
                                } else {
                                    r matches RouteOutcome::Backend(pc) && pc.name@ == nc.0 && jm(
                                        pc.arguments,
                                    ) == nc.1 && opt_jm(pc.id) == q.id
                                },
                            },
                        })
                        &&& (q.jsonrpc == "2.0"@ && q.method != "initialize"@ && q.method
                            != "initialized"@ && q.method != "notifications/initialized"@
                            && !gated_method(q.method) ==> final(self).initialized == old(self).initialized && (r matches RouteOutcome::Reply(resp) && err_resp(
                            resp_model(resp),
                            METHOD_NOT_FOUND as int,
                            "Method not found: "@ + q.method,
                            q.id,
                        )))
                    },
                }
            }),
    {
        broadcast use vstd::string::group_string_axioms;

        proof {
            lemma_method_names_distinct();
        }
        let parsed = match parse_json(input) {
            Some(j) => j,
            None => {
                return RouteOutcome::Reply(
                    JsonRpcResponse::error(None, JsonRpcError::parse_error()),
                );
            },
        };
        let req = match extract_request(&parsed) {
            Some(r) => r,
            None => {
                return RouteOutcome::Reply(
                    JsonRpcResponse::error(None, JsonRpcError::parse_error()),
                );
            },
        };
        if !str_eq(req.jsonrpc.as_str(), "2.0") {
            return RouteOutcome::Reply(
                JsonRpcResponse::error(req.id, JsonRpcError::invalid_request()),
            );
        }
        if str_eq(req.method.as_str(), "initialize") {
            let resp = self.handle_initialize(req);
            return RouteOutcome::Reply(resp);
        }
        if str_eq(req.method.as_str(), "initialized") || str_eq(
            req.method.as_str(),
            "notifications/initialized",
        ) {
            self.initialized = true;
            return match req.id {
                None => RouteOutcome::NoReply,
                Some(idv) => RouteOutcome::Reply(JsonRpcResponse::success(Some(idv), Json::Null)),
            };
        }
        let gated = str_eq(req.method.as_str(), "tools/list") || str_eq(
            req.method.as_str(),
            "tools/call",
        ) || str_eq(req.method.as_str(), "prompts/list") || str_eq(
            req.method.as_str(),
            "resources/list",
        );
        if gated && !self.initialized {
            return RouteOutcome::Reply(
                JsonRpcResponse::error(
                    req.id,
                    JsonRpcError::internal_error("Server not initialized".to_owned()),
                ),
            );
        }
        if str_eq(req.method.as_str(), "tools/list") {
            let resp = self.handle_list_tools(req);
            return RouteOutcome::Reply(resp);
        }
        if str_eq(req.method.as_str(), "prompts/list") {
            let mut fs: Vec<(String, Json)> = Vec::new();
            fs.push(("prompts".to_owned(), Json::Arr(Vec::new())));
            let payload = Json::Obj(fs);
            proof {
                lemma_jm_obj_index(fs@);
                assert(jm_arr(Seq::<Json>::empty()) == Seq::<JsonV>::empty());
                assert(jm(payload)->Obj_0 =~= empty_list_json("prompts"@)->Obj_0);
            }
            return RouteOutcome::Reply(JsonRpcResponse::success(req.id, payload));
        }
        if str_eq(req.method.as_str(), "resources/list") {
            let mut fs: Vec<(String, Json)> = Vec::new();
            fs.push(("resources".to_owned(), Json::Arr(Vec::new())));
            let payload = Json::Obj(fs);
            proof {
                lemma_jm_obj_index(fs@);
                assert(jm_arr(Seq::<Json>::empty()) == Seq::<JsonV>::empty());
                assert(jm(payload)->Obj_0 =~= empty_list_json("resources"@)->Obj_0);
            }
            return RouteOutcome::Reply(JsonRpcResponse::success(req.id, payload));
        }
        if str_eq(req.method.as_str(), "tools/call") {
            let params = match req.params {
                Some(p) => p,
                None => {
                    return RouteOutcome::Reply(
                        JsonRpcResponse::error(
                            req.id,
                            JsonRpcError::invalid_params("Missing params".to_owned()),
                        ),
                    );
                },
            };
            let fs = match &params {
                Json::Obj(fs) => fs,
                _ => {
                    return RouteOutcome::Reply(
                        JsonRpcResponse::error(
                            req.id,
                            JsonRpcError::invalid_params(
                                "Invalid tool call parameters".to_owned(),
                            ),
                        ),
                    );
                },
            };
            let name = match obj_get(fs, "name") {
                Some(Json::Str(s)) => s.clone(),
                _ => {
                    return RouteOutcome::Reply(
                        JsonRpcResponse::error(
                            req.id,
                            JsonRpcError::invalid_params(
                                "Invalid tool call parameters".to_owned(),
                            ),
                        ),
                    );
                },
            };
            let arguments = match obj_get(fs, "arguments") {
                Some(a) => a.duplicate(),
                None => {
                    return RouteOutcome::Reply(
                        JsonRpcResponse::error(
                            req.id,
                            JsonRpcError::invalid_params(
                                "Invalid tool call parameters".to_owned(),
                            ),
                        ),
                    );
                },
            };
            if !is_registered(name.as_str()) {
                let msg = crate::text::str_concat("Tool not found: ", name.as_str());
                return RouteOutcome::Reply(
                    JsonRpcResponse::error(req.id, JsonRpcError::internal_error(msg)),
                );
            }
            return RouteOutcome::Backend(PendingCall { name, arguments, id: req.id });
        }
        let err = JsonRpcError::method_not_found(req.method.as_str());
        RouteOutcome::Reply(JsonRpcResponse::error(req.id, err))
    }

    /// Builds the response for a completed backend operation: a
    /// read-class tool's result goes through the optimizer, then the
    /// (possibly shrunk) value rides as text in the content envelope;
    /// a failed operation surfaces as its own internal error.  A call
    /// that carried no id was a notification: the operation ran, but
    /// no response is owed.
    pub fn finish_call(&self, call: PendingCall, outcome: Result<Json, String>) -> (r: Option<
        JsonRpcResponse,
    >)
        ensures
            call.id is None <==> r is None,
            ({
                match (r, outcome) {
                    (Some(resp), Result::Err(msg)) => err_resp(
                        resp_model(resp),
                        INTERNAL_ERROR as int,
                        msg@,
                        opt_jm(call.id),
                    ),
                    (Some(resp), Result::Ok(data)) => resp_model(resp).error is None
                        && resp_model(resp).id == opt_jm(call.id) && resp_model(resp).result
                        == Option::Some(call_content_json(
                        text_of(optimized_result(call.name@, jm(data), &self.config)),
                    )),
                    (None, _) => true,
                }
            }),
    {
        if call.id.is_none() {
            return None;
        }
        let mut data = match outcome {
            Ok(d) => d,
            Err(msg) => {
                return Some(JsonRpcResponse::error(call.id, JsonRpcError::internal_error(msg)));
            },
        };
        let ghost unoptimized = jm(data);
        if is_read_tool(call.name.as_str()) {
            let optimizer = ResponseOptimizer::from_config(&self.config);
            proof {
                crate::optimizer::lemma_excl_set_views(optimizer.exclude_fields@);
                match &self.config.response_exclude_fields {
                    Option::Some(f) => {
                        crate::optimizer::lemma_excl_set_views(f@);
                    },
                    Option::None => {},
                }
            }
            match optimizer.optimize(&mut data) {
                Ok(()) => {},
                Err(_) => {},
            }
            proof {
                assert(jm(data) == optimized_result(call.name@, unoptimized, &self.config));
            }
        }
        let text = match &data {
            Json::Str(s) => s.clone(),
            _ => to_pretty_string(&data),
        };
        let ghost textm = text@;
        let content = CallToolResult { content: vec![ToolContent::Text { text }] };
        let payload = content.to_json();
        proof {
            assert(content_json(content.content@[0]) == JsonV::Obj(
                seq![("type"@, JsonV::Str("text"@)), ("text"@, JsonV::Str(textm))],
            ));
            assert(content.content@.map_values(|c: ToolContent| content_json(c)) =~= seq![
                content_json(content.content@[0]),
            ]);
            assert(jm(payload) =~= call_content_json(textm));
        }
        Some(JsonRpcResponse::success(call.id, payload))
    }
}

/// The wire line for a response, without the trailing newline.
pub fn response_line(resp: JsonRpcResponse) -> (r: String)
    ensures
        r@ == ser(resp_json(resp_model(resp))),
{
    let ghost model = resp_model(resp);
    let j = resp.to_json();
    to_json_string(&j)
}

} // verus!

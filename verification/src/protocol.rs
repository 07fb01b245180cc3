//! The JSON-RPC envelope: requests, responses and errors, their
//! extraction from parsed JSON and their rendering back to it.
//!
//! Every request carrying a non-null id receives exactly one response
//! with the same id; a request without an id is a notification and
//! receives none.  A response holds either a result or an error, never
//! both.

use vstd::prelude::*;
use crate::json::{Json, JsonV, jm, jm_obj, lookup, lemma_jm_obj_index, obj_get};
use crate::text::int_str;

verus! {

/// The protocol version literal every envelope must carry.
pub const JSONRPC_VERSION: &'static str = "2.0";

/// The older protocol date the server can negotiate.
pub const PROTOCOL_VERSION: &'static str = "2024-11-05";

/// The newer protocol date the server prefers.
pub const PROTOCOL_VERSION_2025: &'static str = "2025-06-18";

/// Malformed request text.
pub const PARSE_ERROR: i64 = -32700;

/// A bad envelope, e.g. the wrong version literal.
pub const INVALID_REQUEST: i64 = -32600;

/// An unrecognized method name.
pub const METHOD_NOT_FOUND: i64 = -32601;

/// Missing or malformed call parameters.
pub const INVALID_PARAMS: i64 = -32602;

/// A failure while serving a recognized request.
pub const INTERNAL_ERROR: i64 = -32603;

/// An incoming request envelope.
pub struct JsonRpcRequest {
    pub jsonrpc: String,
    pub method: String,
    pub params: Option<Json>,
    pub id: Option<Json>,
}

/// A response error.
pub struct JsonRpcError {
    pub code: i64,
    pub message: String,
    pub data: Option<Json>,
}

/// An outgoing response envelope.
pub struct JsonRpcResponse {
    pub jsonrpc: String,
    pub result: Option<Json>,
    pub error: Option<JsonRpcError>,
    pub id: Option<Json>,
}

/// The model of a request envelope.
pub struct ReqV {
    pub jsonrpc: Seq<char>,
    pub method: Seq<char>,
    pub params: Option<JsonV>,
    pub id: Option<JsonV>,
}

/// The model of a response error.
pub struct ErrV {
    pub code: int,
    pub message: Seq<char>,
    pub data: Option<JsonV>,
}

/// The model of a response envelope.
pub struct RespV {
    pub result: Option<JsonV>,
    pub error: Option<ErrV>,
    pub id: Option<JsonV>,
}

/// The model of a request value.
pub open spec fn req_model(r: JsonRpcRequest) -> ReqV {
    ReqV {
        jsonrpc: r.jsonrpc@,
        method: r.method@,
        params: match r.params {
            Option::Some(p) => Option::Some(jm(p)),
            Option::None => Option::None,
        },
        id: match r.id {
            Option::Some(v) => Option::Some(jm(v)),
            Option::None => Option::None,
        },
    }
}

/// The model of a response value.
pub open spec fn resp_model(r: JsonRpcResponse) -> RespV {
    RespV {
        result: match r.result {
            Option::Some(p) => Option::Some(jm(p)),
            Option::None => Option::None,
        },
        error: match r.error {
            Option::Some(e) => Option::Some(
                ErrV {
                    code: e.code as int,
                    message: e.message@,
                    data: match e.data {
                        Option::Some(d) => Option::Some(jm(d)),
                        Option::None => Option::None,
                    },
                },
            ),
            Option::None => Option::None,
        },
        id: match r.id {
            Option::Some(v) => Option::Some(jm(v)),
            Option::None => Option::None,
        },
    }
}

/// An optional member: a missing binding and an explicit `null` both
/// stand for "no value".
pub open spec fn opt_member(fs: Seq<(Seq<char>, JsonV)>, k: Seq<char>) -> Option<JsonV> {
    match lookup(fs, k) {
        Option::Some(JsonV::Null) => Option::None,
        Option::Some(v) => Option::Some(v),
        Option::None => Option::None,
    }
}

/// The request envelope a JSON value describes: an object whose
/// `jsonrpc` and `method` members are strings, with optional `params`
/// and `id` members (`null` counting as absent).
pub open spec fn req_of(j: JsonV) -> Option<ReqV> {
    match j {
        JsonV::Obj(fs) => match lookup(fs, "jsonrpc"@) {
            Option::Some(JsonV::Str(ver)) => match lookup(fs, "method"@) {
                Option::Some(JsonV::Str(m)) => Option::Some(
                    ReqV {
                        jsonrpc: ver,
                        method: m,
                        params: opt_member(fs, "params"@),
                        id: opt_member(fs, "id"@),
                    },
                ),
                _ => Option::None,
            },
            _ => Option::None,
        },
        _ => Option::None,
    }
}

/// Extracts the request envelope from a parsed value.
pub fn extract_request(j: &Json) -> (r: Option<JsonRpcRequest>)
    ensures
        match r {
            Some(req) => req_of(jm(*j)) == Option::Some(req_model(req)),
            None => req_of(jm(*j)) is None,
        },
{
    let fs = match j {
        Json::Obj(fs) => fs,
        _ => {
            return None;
        },
    };
    let ver = match obj_get(fs, "jsonrpc") {
        Some(Json::Str(s)) => s.clone(),
        _ => {
            return None;
        },
    };
    let method = match obj_get(fs, "method") {
        Some(Json::Str(s)) => s.clone(),
        _ => {
            return None;
        },
    };
    let params = match obj_get(fs, "params") {
        Some(Json::Null) => None,
        Some(v) => Some(v.duplicate()),
        None => None,
    };
    let id = match obj_get(fs, "id") {
        Some(Json::Null) => None,
        Some(v) => Some(v.duplicate()),
        None => None,
    };
    Some(JsonRpcRequest { jsonrpc: ver, method, params, id })
}

impl JsonRpcError {
    /// The error for unparseable input.
    pub fn parse_error() -> (r: Self)
        ensures
            r.code == PARSE_ERROR,
            r.message@ == "Parse error"@,
            r.data is None,
    {
        JsonRpcError { code: PARSE_ERROR, message: "Parse error".to_owned(), data: None }
    }

    /// The error for a bad envelope.
    pub fn invalid_request() -> (r: Self)
        ensures
            r.code == INVALID_REQUEST,
            r.message@ == "Invalid request"@,
            r.data is None,
    {
        JsonRpcError { code: INVALID_REQUEST, message: "Invalid request".to_owned(), data: None }
    }

    /// The error for an unknown method, naming it.
    pub fn method_not_found(method: &str) -> (r: Self)
        ensures
            r.code == METHOD_NOT_FOUND,
            r.message@ == "Method not found: "@ + method@,
            r.data is None,
    {
        JsonRpcError {
            code: METHOD_NOT_FOUND,
            message: crate::text::str_concat("Method not found: ", method),
            data: None,
        }
    }

    /// The error for missing or malformed parameters.
    pub fn invalid_params(message: String) -> (r: Self)
        ensures
            r.code == INVALID_PARAMS,
            r.message == message,
            r.data is None,
    {
        JsonRpcError { code: INVALID_PARAMS, message, data: None }
    }

    /// The error for a failure while serving a request.
    pub fn internal_error(message: String) -> (r: Self)
        ensures
            r.code == INTERNAL_ERROR,
            r.message == message,
            r.data is None,
    {
        JsonRpcError { code: INTERNAL_ERROR, message, data: None }
    }
}

impl JsonRpcResponse {
    /// A success envelope carrying `result`.
    pub fn success(id: Option<Json>, result: Json) -> (r: Self)
        ensures
            r.jsonrpc@ == "2.0"@,
            r.result matches Option::Some(v) && jm(v) == jm(result),
            r.error is None,
            r.id == id,
    {
        JsonRpcResponse { jsonrpc: "2.0".to_owned(), result: Some(result), error: None, id }
    }

    /// An error envelope carrying `error`.
    pub fn error(id: Option<Json>, error: JsonRpcError) -> (r: Self)
        ensures
            r.jsonrpc@ == "2.0"@,
            r.result is None,
            r.error == Option::Some(error),
            r.id == id,
    {
        JsonRpcResponse { jsonrpc: "2.0".to_owned(), result: None, error: Some(error), id }
    }
}

/// What a client says about itself during the handshake.
pub struct ClientInfo {
    pub name: String,
    pub version: String,
}

/// What the server says about itself during the handshake.
pub struct ServerInfo {
    pub name: String,
    pub version: String,
}

/// A client's declared capabilities.
pub struct ClientCapabilities {
    pub experimental: Vec<(String, Json)>,
}

/// The handshake request body.
pub struct InitializeRequest {
    pub protocol_version: String,
    pub capabilities: ClientCapabilities,
    pub client_info: ClientInfo,
}

/// The server's advertised capabilities: deliberately minimal, not
/// computed from the registry.
pub struct ServerCapabilities {
    pub tools: Vec<(String, Json)>,
    pub experimental: Vec<(String, Json)>,
}

/// The handshake response body.
pub struct InitializeResult {
    pub protocol_version: String,
    pub capabilities: ServerCapabilities,
    pub server_info: ServerInfo,
}

/// One piece of content in a call result.
pub enum ToolContent {
    Text { text: String },
    Image { data: String, mime_type: String },
}

/// The result of one tool call: content pieces for the caller.
pub struct CallToolResult {
    pub content: Vec<ToolContent>,
}

/// The JSON tree of one content piece.
pub open spec fn content_json(c: ToolContent) -> JsonV {
    match c {
        ToolContent::Text { text } => JsonV::Obj(
            seq![("type"@, JsonV::Str("text"@)), ("text"@, JsonV::Str(text@))],
        ),
        ToolContent::Image { data, mime_type } => JsonV::Obj(
            seq![
                ("type"@, JsonV::Str("image"@)),
                ("data"@, JsonV::Str(data@)),
                ("mime_type"@, JsonV::Str(mime_type@)),
            ],
        ),
    }
}

/// The JSON tree of a call result.
pub open spec fn call_result_json(r: CallToolResult) -> JsonV {
    JsonV::Obj(
        seq![("content"@, JsonV::Arr(r.content@.map_values(|c: ToolContent| content_json(c))))],
    )
}

impl CallToolResult {
    /// This result as a JSON value.
    pub fn to_json(self) -> (r: Json)
        ensures
            jm(r) == call_result_json(self),
    {
        let ghost model = call_result_json(self);
        let ghost items = self.content@.map_values(|c: ToolContent| content_json(c));
        let mut arr: Vec<Json> = Vec::new();
        let mut content = self.content;
        let mut i: usize = 0;
        proof {
            assert(items.subrange(0, 0) =~= Seq::<JsonV>::empty());
            assert(crate::json::jm_arr(arr@) =~= items.subrange(0, 0));
        }
        while i < content.len()
            invariant
                i <= content@.len(),
                items.len() == content@.len(),
                forall|j: int| 0 <= j < content@.len() ==> items[j] == content_json(
                    #[trigger] content@[j],
                ),
                crate::json::jm_arr(arr@) == items.subrange(0, i as int),
            decreases content@.len() - i,
        {
            let ghost arr0 = arr@;
            let piece = match &content[i] {
                ToolContent::Text { text } => {
                    let mut fs: Vec<(String, Json)> = Vec::new();
                    fs.push(("type".to_owned(), Json::Str("text".to_owned())));
                    fs.push(("text".to_owned(), Json::Str(text.clone())));
                    proof {
                        lemma_jm_obj_index(fs@);
                        assert(jm_obj(fs@) =~= content_json(content@[i as int])->Obj_0);
                    }
                    Json::Obj(fs)
                },
                ToolContent::Image { data, mime_type } => {
                    let mut fs: Vec<(String, Json)> = Vec::new();
                    fs.push(("type".to_owned(), Json::Str("image".to_owned())));
                    fs.push(("data".to_owned(), Json::Str(data.clone())));
                    fs.push(("mime_type".to_owned(), Json::Str(mime_type.clone())));
                    proof {
                        lemma_jm_obj_index(fs@);
                        assert(jm_obj(fs@) =~= content_json(content@[i as int])->Obj_0);
                    }
                    Json::Obj(fs)
                },
            };
            arr.push(piece);
            proof {
                crate::json::lemma_jm_arr_index(arr@);
                crate::json::lemma_jm_arr_index(arr0);
                assert(crate::json::jm_arr(arr@) =~= crate::json::jm_arr(arr0).push(
                    items[i as int],
                ));
                assert(items.subrange(0, i as int).push(items[i as int]) =~= items.subrange(
                    0,
                    i + 1,
                ));
            }
            i = i + 1;
        }
        proof {
            assert(items.subrange(0, items.len() as int) =~= items);
        }
        let mut fs: Vec<(String, Json)> = Vec::new();
        fs.push(("content".to_owned(), Json::Arr(arr)));
        proof {
            lemma_jm_obj_index(fs@);
            assert(jm_obj(fs@) =~= model->Obj_0);
        }
        Json::Obj(fs)
    }
}

/// The JSON tree of a response error.
pub open spec fn err_json(e: ErrV) -> JsonV {
    JsonV::Obj(
        seq![("code"@, JsonV::Num(int_str(e.code))), ("message"@, JsonV::Str(e.message))] + (
        match e.data {
            Option::Some(d) => seq![("data"@, d)],
            Option::None => Seq::empty(),
        }),
    )
}

/// The JSON tree of a response: the version literal, the result or the
/// error, and the id, `null` when there is none.
pub open spec fn resp_json(r: RespV) -> JsonV {
    JsonV::Obj(
        seq![("jsonrpc"@, JsonV::Str("2.0"@))] + (match r.result {
            Option::Some(v) => seq![("result"@, v)],
            Option::None => Seq::empty(),
        }) + (match r.error {
            Option::Some(e) => seq![("error"@, err_json(e))],
            Option::None => Seq::empty(),
        }) + seq![
            ("id"@, match r.id {
                Option::Some(v) => v,
                Option::None => JsonV::Null,
            }),
        ],
    )
}

impl JsonRpcResponse {
    /// This response as a JSON value, ready for the wire.
    pub fn to_json(self) -> (r: Json)
        ensures
            jm(r) == resp_json(resp_model(self)),
    {
        let ghost model = resp_model(self);
        let mut fs: Vec<(String, Json)> = Vec::new();
        fs.push(("jsonrpc".to_owned(), Json::Str("2.0".to_owned())));
        match self.result {
            Some(v) => {
                fs.push(("result".to_owned(), v));
            },
            None => {},
        }
        match self.error {
            Some(e) => {
                let mut efs: Vec<(String, Json)> = Vec::new();
                efs.push(("code".to_owned(), Json::Num(crate::text::i64_to_string(e.code))));
                efs.push(("message".to_owned(), Json::Str(e.message)));
                match e.data {
                    Some(d) => {
                        efs.push(("data".to_owned(), d));
                    },
                    None => {},
                }
                proof {
                    lemma_jm_obj_index(efs@);
                    assert(jm_obj(efs@) =~= (err_json(model.error->Some_0)->Obj_0));
                }
                fs.push(("error".to_owned(), Json::Obj(efs)));
            },
            None => {},
        }
        let idv = match self.id {
            Some(v) => v,
            None => Json::Null,
        };
        fs.push(("id".to_owned(), idv));
        proof {
            lemma_jm_obj_index(fs@);
            assert(jm_obj(fs@) =~= (resp_json(model)->Obj_0));
        }
        Json::Obj(fs)
    }
}

} // verus!

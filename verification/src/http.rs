//! What a backend operation looks like from the library's side: a
//! planned request, the outcome the caller observed, and the
//! authorization header the plan is sent with.
//!
//! The library never performs I/O; the caller executes a plan and
//! hands the outcome back.

use vstd::prelude::*;
use vstd::string::StrSliceExecFns;
use vstd::utf8::encode_utf8;
use base64::Engine;
use base64::engine::general_purpose::STANDARD;
use crate::config::Config;
use crate::json::{Json, JsonV, jm, jm_obj};
use crate::text::{append_str, str_concat};

verus! {

/// The verb of a planned request.
#[derive(Debug)]
pub enum HttpMethod {
    Get,
    Post,
    Put,
}

/// One planned backend request: everything the caller needs to
/// perform it.
#[derive(Debug)]
pub struct HttpPlan {
    pub method: HttpMethod,
    pub url: String,
    pub query: Vec<(String, String)>,
    pub body: Option<crate::json::Json>,
}

/// What came back from a performed request: whether the status was a
/// success, the status line for error reporting, and the body text.
#[derive(Debug)]
pub struct HttpOutcome {
    pub success: bool,
    pub status: String,
    pub body: String,
}

/// The success envelope around extra fields:
/// `{"success": true, ...extras}`.
pub open spec fn success_obj(extras: Seq<(Seq<char>, JsonV)>) -> JsonV {
    JsonV::Obj(seq![("success"@, JsonV::Bool(true))] + extras)
}

/// Builds the success envelope around the given fields.
pub fn json_success_obj(extras: Vec<(String, Json)>) -> (r: Json)
    ensures
        jm(r) == success_obj(jm_obj(extras@)),
{
    let ghost ex = jm_obj(extras@);
    let mut fs: Vec<(String, Json)> = Vec::new();
    fs.push(("success".to_owned(), Json::Bool(true)));
    let mut extras = extras;
    let ghost fs0 = fs@;
    let ghost extras0 = extras@;
    fs.append(&mut extras);
    proof {
        assert(fs@ =~= fs0 + extras0);
        crate::json::lemma_jm_obj_index(fs@);
        crate::json::lemma_jm_obj_index(fs0);
        crate::json::lemma_jm_obj_index(extras0);
        assert(jm_obj(fs@) =~= seq![("success"@, JsonV::Bool(true))] + ex);
    }
    Json::Obj(fs)
}

/// How an interpreter reports a failed request: the handler's error
/// prefix followed by the status line or the body text.
pub open spec fn fail_msg(
    outcome: HttpOutcome,
    prefix: Seq<char>,
    use_status: bool,
) -> Seq<char> {
    prefix + (if use_status {
        outcome.status@
    } else {
        outcome.body@
    })
}

/// Interpretation of an outcome whose payload is wrapped whole:
/// a failure carries the prefixed status or body; an unreadable body
/// is its own error; a parsed body `d` yields
/// `{"success": true, key: d}`.
pub open spec fn wrap_interp(
    outcome: HttpOutcome,
    prefix: Seq<char>,
    use_status: bool,
    key: Seq<char>,
    r: Result<Json, String>,
) -> bool {
    if !outcome.success {
        r matches Result::Err(m) && m@ == fail_msg(outcome, prefix, use_status)
    } else {
        match crate::parse::sp_parse(outcome.body@) {
            Option::None => r matches Result::Err(m) && m@ == "Failed to parse response body"@,
            Option::Some(d) => r matches Result::Ok(j) && jm(j) == success_obj(seq![(key, d)]),
        }
    }
}

/// Wraps a whole response body under `key` in the success envelope.
pub fn interpret_wrapped(outcome: HttpOutcome, prefix: &str, use_status: bool, key: &str) -> (r:
    Result<Json, String>)
    ensures
        wrap_interp(outcome, prefix@, use_status, key@, r),
{
    if !outcome.success {
        let tail = if use_status {
            outcome.status.as_str()
        } else {
            outcome.body.as_str()
        };
        return Err(str_concat(prefix, tail));
    }
    let data = match crate::parse::parse_json(outcome.body.as_str()) {
        Some(d) => d,
        None => {
            return Err("Failed to parse response body".to_owned());
        },
    };
    let mut extras: Vec<(String, Json)> = Vec::new();
    extras.push((key.to_owned(), data));
    let ghost exm = jm_obj(extras@);
    proof {
        crate::json::lemma_jm_obj_index(extras@);
        assert(exm =~= seq![(key@, crate::parse::sp_parse(outcome.body@)->Some_0)]);
    }
    let r = json_success_obj(extras);
    Ok(r)
}

/// Interpretation of an outcome from which named members are
/// extracted: a parsed body `d` yields
/// `{"success": true, k1: d[s1], k2: d[s2], ...}`.
pub open spec fn extract_interp(
    outcome: HttpOutcome,
    prefix: Seq<char>,
    use_status: bool,
    fields: Seq<(Seq<char>, Seq<char>)>,
    r: Result<Json, String>,
) -> bool {
    if !outcome.success {
        r matches Result::Err(m) && m@ == fail_msg(outcome, prefix, use_status)
    } else {
        match crate::parse::sp_parse(outcome.body@) {
            Option::None => r matches Result::Err(m) && m@ == "Failed to parse response body"@,
            Option::Some(d) => r matches Result::Ok(j) && jm(j) == success_obj(
                fields.map_values(|f: (Seq<char>, Seq<char>)| (f.0, crate::args::index_of(d, f.1))),
            ),
        }
    }
}

/// Extracts the named members of the response body into the success
/// envelope; each pair is an output name and the member it reads.
pub fn interpret_extracted(
    outcome: HttpOutcome,
    prefix: &str,
    use_status: bool,
    fields: &Vec<(String, String)>,
) -> (r: Result<Json, String>)
    ensures
        extract_interp(
            outcome,
            prefix@,
            use_status,
            fields@.map_values(|f: (String, String)| (f.0@, f.1@)),
            r,
        ),
{
    let ghost fmodel = fields@.map_values(|f: (String, String)| (f.0@, f.1@));
    if !outcome.success {
        let tail = if use_status {
            outcome.status.as_str()
        } else {
            outcome.body.as_str()
        };
        return Err(str_concat(prefix, tail));
    }
    let data = match crate::parse::parse_json(outcome.body.as_str()) {
        Some(d) => d,
        None => {
            return Err("Failed to parse response body".to_owned());
        },
    };
    let ghost dm = jm(data);
    let ghost target = fmodel.map_values(
        |f: (Seq<char>, Seq<char>)| (f.0, crate::args::index_of(dm, f.1)),
    );
    let mut extras: Vec<(String, Json)> = Vec::new();
    let mut i: usize = 0;
    proof {
        assert(jm_obj(extras@) =~= target.subrange(0, 0));
    }
    while i < fields.len()
        invariant
            i <= fields@.len(),
            dm == jm(data),
            fmodel == fields@.map_values(|f: (String, String)| (f.0@, f.1@)),
            target == fmodel.map_values(
                |f: (Seq<char>, Seq<char>)| (f.0, crate::args::index_of(dm, f.1)),
            ),
            target.len() == fields@.len(),
            jm_obj(extras@) == target.subrange(0, i as int),
        decreases fields@.len() - i,
    {
        let ghost ex0 = extras@;
        let member = match crate::args::get_member(&data, fields[i].1.as_str()) {
            Some(v) => v.duplicate(),
            None => Json::Null,
        };
        let name = fields[i].0.clone();
        extras.push((name, member));
        proof {
            crate::json::lemma_jm_obj_index(extras@);
            crate::json::lemma_jm_obj_index(ex0);
            assert(target[i as int] == (fields@[i as int].0@, crate::args::index_of(
                dm,
                fields@[i as int].1@,
            )));
            assert(jm_obj(extras@) =~= jm_obj(ex0).push(target[i as int]));
            assert(target.subrange(0, i as int).push(target[i as int]) =~= target.subrange(
                0,
                i + 1,
            ));
        }
        i = i + 1;
    }
    proof {
        assert(target.subrange(0, target.len() as int) =~= target);
    }
    Ok(json_success_obj(extras))
}

/// Interpretation of an outcome acknowledged with a message: success
/// yields `{"success": true, "message": msg}` without reading the
/// body.
pub open spec fn message_interp(
    outcome: HttpOutcome,
    prefix: Seq<char>,
    msg: Seq<char>,
    r: Result<Json, String>,
) -> bool {
    if !outcome.success {
        r matches Result::Err(m) && m@ == prefix + outcome.status@
    } else {
        r matches Result::Ok(j) && jm(j) == success_obj(seq![("message"@, JsonV::Str(msg))])
    }
}

/// Acknowledges a successful request with the given message.
pub fn interpret_message(outcome: HttpOutcome, prefix: &str, msg: String) -> (r: Result<
    Json,
    String,
>)
    ensures
        message_interp(outcome, prefix@, msg@, r),
{
    if !outcome.success {
        return Err(str_concat(prefix, outcome.status.as_str()));
    }
    let ghost msgm = msg@;
    let mut extras: Vec<(String, Json)> = Vec::new();
    extras.push(("message".to_owned(), Json::Str(msg)));
    let ghost exm = jm_obj(extras@);
    proof {
        crate::json::lemma_jm_obj_index(extras@);
        assert(exm =~= seq![("message"@, JsonV::Str(msgm))]);
    }
    let r = json_success_obj(extras);
    Ok(r)
}

/// The standard base64 encoding of a byte sequence, with padding, as
/// the `base64` crate's standard engine computes it; it depends on
/// the bytes alone.
pub uninterp spec fn base64_of(b: Seq<u8>) -> Seq<char>;

/// Relies on `base64::engine::general_purpose::STANDARD`'s `encode`:
/// standard alphabet with padding, four output characters for every
/// three input bytes begun.
#[verifier::external_body]
fn base64_encode(input: &[u8]) -> (r: String)
    requires
        input@.len() <= usize::MAX as int / 4,
    ensures
        r@ == base64_of(input@),
        r@.len() == 4 * ((input@.len() + 2) / 3),
{
    STANDARD.encode(input)
}

/// The UTF-8 bytes of the credential pair `email:token`.
pub open spec fn credential_bytes(c: &Config) -> Seq<u8> {
    encode_utf8(c.atlassian_email@ + ":"@ + c.atlassian_api_token@)
}

/// The basic authorization header for the configured credentials:
/// `Basic` followed by the base64 form of `email:token`.
pub fn create_auth_header(config: &Config) -> (r: String)
    requires
        credential_bytes(config).len() <= usize::MAX as int / 4,
    ensures
        r@ == "Basic "@ + base64_of(credential_bytes(config)),
{
    let mut credentials = config.atlassian_email.clone();
    append_str(&mut credentials, ":");
    append_str(&mut credentials, config.atlassian_api_token.as_str());
    let bytes = credentials.as_str().as_bytes_vec();
    let encoded = base64_encode(bytes.as_slice());
    str_concat("Basic ", encoded.as_str())
}

} // verus!

//! The wire-facing request model: every control-plane operation is planned
//! as an `HttpCall` — method, path, query and body — which the unverified
//! transport layer executes as-is.

use vstd::prelude::*;
use crate::text::chars_to_string;
use crate::text::push_chars;
use crate::text::push_string;

verus! {

/// HTTP method of a planned call.
#[derive(Clone, Copy, Debug, PartialEq, Eq, Structural)]
pub enum Method {
    Get,
    Post,
    Put,
    Delete,
}

/// Body of a planned call. `FileUpload` names a local file whose bytes the
/// transport streams; `WorkerCreation` is serialised by the transport layer.
pub enum RequestBody {
    Empty,
    JsonValue(serde_json::Value),
    FileUpload(String),
    WorkerCreation { name: String, env: Vec<String>, args: Vec<String> },
}

/// One planned call against the control-plane.
pub struct HttpCall {
    pub method: Method,
    pub path: String,
    pub query: Vec<(String, String)>,
    pub body: RequestBody,
}

/// Path of the template collection.
pub open spec fn spec_templates_path() -> Seq<char> {
    "/v2/templates"@
}

/// Path of one template.
pub open spec fn spec_template_path(id: Seq<char>) -> Seq<char> {
    "/v2/templates/"@ + id
}

/// Path of a template's worker collection.
pub open spec fn spec_workers_path(tid: Seq<char>) -> Seq<char> {
    spec_template_path(tid) + "/workers"@
}

/// Path of one worker.
pub open spec fn spec_worker_path(tid: Seq<char>, w: Seq<char>) -> Seq<char> {
    spec_template_path(tid) + "/workers/"@ + w
}

/// Builds the collection path of all templates.
pub fn templates_path() -> (r: String)
    ensures
        r@ == spec_templates_path(),
{
    let mut out: Vec<char> = Vec::new();
    push_chars(&mut out, "/v2/templates");
    chars_to_string(&out)
}

/// Builds the path of one template, with an optional suffix such as
/// `/latest` or `/upload`.
pub fn template_path(id: &String, suffix: &str) -> (r: String)
    ensures
        r@ == spec_template_path(id@) + suffix@,
{
    let mut out: Vec<char> = Vec::new();
    push_chars(&mut out, "/v2/templates/");
    push_string(&mut out, id);
    push_chars(&mut out, suffix);
    chars_to_string(&out)
}

/// Builds the worker-collection path of one template.
pub fn workers_path(tid: &String) -> (r: String)
    ensures
        r@ == spec_workers_path(tid@),
{
    template_path(tid, "/workers")
}

/// Builds the path of one worker, with an optional operation suffix such as
/// `/key` or `/invoke`.
pub fn worker_path(tid: &String, w: &String, suffix: &str) -> (r: String)
    ensures
        r@ == spec_worker_path(tid@, w@) + suffix@,
{
    let mut out: Vec<char> = Vec::new();
    push_chars(&mut out, "/v2/templates/");
    push_string(&mut out, tid);
    push_chars(&mut out, "/workers/");
    push_string(&mut out, w);
    push_chars(&mut out, suffix);
    chars_to_string(&out)
}

/// Builds one query pair.
pub fn query_pair(key: &str, value: String) -> (r: (String, String))
    ensures
        r.0@ == key@,
        r.1 == value,
{
    let mut out: Vec<char> = Vec::new();
    push_chars(&mut out, key);
    (chars_to_string(&out), value)
}

/// What a server answer means: a 2xx status hands the body on, 404 is
/// `NotFound`, every other status surfaces the server's body as an API
/// error.
pub open spec fn spec_response_outcome(status: u16, body: String) -> Result<
    String,
    crate::model::GolemError,
> {
    if 200 <= status < 300 {
        Result::Ok(body)
    } else if status == 404 {
        Result::Err(crate::model::GolemError::NotFound(body))
    } else {
        Result::Err(crate::model::GolemError::ApiError(body))
    }
}

/// Maps an HTTP status and response body to the handler outcome.
pub fn response_outcome(status: u16, body: String) -> (r: Result<
    String,
    crate::model::GolemError,
>)
    ensures
        r == spec_response_outcome(status, body),
{
    if 200 <= status && status < 300 {
        Ok(body)
    } else if status == 404 {
        Err(crate::model::GolemError::NotFound(body))
    } else {
        Err(crate::model::GolemError::ApiError(body))
    }
}

} // verus!

//! The worker handler: planning of worker API calls, early validation of
//! invocation parameters, and the invocation-key discipline of
//! `invoke-and-await`.

use vstd::prelude::*;
use crate::api::HttpCall;
use crate::api::Method;
use crate::api::RequestBody;
use crate::api::query_pair;
use crate::api::spec_worker_path;
use crate::api::spec_workers_path;
use crate::api::worker_path;
use crate::api::workers_path;
use crate::jsonio::json_parsed;
use crate::jsonio::parse_json;
use crate::model::GolemError;
use crate::model::GolemResult;
use crate::model::InvocationKey;
use crate::model::Renderable;
use crate::model::Worker;
use crate::template::TemplateRef;

verus! {

/// How the invoked function receives its parameters.
#[derive(Clone, Copy, Debug, PartialEq, Eq, Structural)]
pub enum CallingConvention {
    Component,
    Stdio,
}

/// The subcommands of the `worker` noun. Every one names its template by
/// identifier or by name, and its worker where one is addressed.
pub enum WorkerSubcommand {
    Add { template_ref: TemplateRef, worker_name: String, env: Vec<String>, args: Vec<String> },
    Delete { template_ref: TemplateRef, worker_name: String },
    Get { template_ref: TemplateRef, worker_name: String },
    List { template_ref: TemplateRef },
    Invoke { template_ref: TemplateRef, worker_name: String, function: String, parameters: String },
    InvokeAndAwait {
        template_ref: TemplateRef,
        worker_name: String,
        function: String,
        parameters: String,
        use_stdio: bool,
    },
    InvocationKey { template_ref: TemplateRef, worker_name: String },
    Connect { template_ref: TemplateRef, worker_name: String },
    Interrupt { template_ref: TemplateRef, worker_name: String },
    SimulatedCrash { template_ref: TemplateRef, worker_name: String },
}

/// Parses the `--parameters` argument as JSON before any call is planned;
/// invalid syntax is refused early as `InvalidArgument` and no request
/// carries it.
pub fn prepare_parameters(text: &String) -> (r: Result<serde_json::Value, GolemError>)
    ensures
        r is Ok <==> json_parsed(text@) is Some,
        r matches Ok(v) ==> json_parsed(text@) == Some(v),
        r matches Err(e) ==> (e matches GolemError::InvalidArgument(m) && m@ == text@),
{
    match parse_json(text.as_str()) {
        Option::Some(v) => Ok(v),
        Option::None => Err(GolemError::InvalidArgument(text.clone())),
    }
}

/// Plans the creation of a worker: `POST /v2/templates/{id}/workers`, the
/// name, environment and arguments carried in the body.
pub fn worker_add_request(tid: &String, worker_name: &String, env: Vec<String>, args: Vec<
    String,
>) -> (c: HttpCall)
    ensures
        c.method == Method::Post,
        c.path@ == spec_workers_path(tid@),
        c.query@.len() == 0,
        (c.body matches RequestBody::WorkerCreation { name, env: e, args: a } && name@
            == worker_name@ && e == env && a == args),
{
    HttpCall {
        method: Method::Post,
        path: workers_path(tid),
        query: Vec::new(),
        body: RequestBody::WorkerCreation { name: worker_name.clone(), env, args },
    }
}

/// Plans a plain worker operation: the method and the path suffix decide
/// which one.
fn worker_plain_request(tid: &String, w: &String, method: Method, suffix: &str) -> (c: HttpCall)
    ensures
        c.method == method,
        c.path@ == spec_worker_path(tid@, w@) + suffix@,
        c.query@.len() == 0,
        c.body is Empty,
{
    HttpCall { method, path: worker_path(tid, w, suffix), query: Vec::new(), body: RequestBody::Empty }
}

/// Plans the fetch of a worker's metadata.
pub fn worker_get_request(tid: &String, w: &String) -> (c: HttpCall)
    ensures
        c.method == Method::Get,
        c.path@ == spec_worker_path(tid@, w@),
        c.query@.len() == 0,
        c.body is Empty,
{
    let c = worker_plain_request(tid, w, Method::Get, "");
    proof {
        reveal_strlit("");
        assert(spec_worker_path(tid@, w@) + ""@ =~= spec_worker_path(tid@, w@));
    }
    c
}

/// Plans the deletion of a worker.
pub fn worker_delete_request(tid: &String, w: &String) -> (c: HttpCall)
    ensures
        c.method == Method::Delete,
        c.path@ == spec_worker_path(tid@, w@),
        c.query@.len() == 0,
        c.body is Empty,
{
    let c = worker_plain_request(tid, w, Method::Delete, "");
    proof {
        reveal_strlit("");
        assert(spec_worker_path(tid@, w@) + ""@ =~= spec_worker_path(tid@, w@));
    }
    c
}

/// Plans the listing of a template's workers.
pub fn worker_list_request(tid: &String) -> (c: HttpCall)
    ensures
        c.method == Method::Get,
        c.path@ == spec_workers_path(tid@),
        c.query@.len() == 0,
        c.body is Empty,
{
    HttpCall {
        method: Method::Get,
        path: workers_path(tid),
        query: Vec::new(),
        body: RequestBody::Empty,
    }
}

/// Plans the interruption of a worker.
pub fn worker_interrupt_request(tid: &String, w: &String) -> (c: HttpCall)
    ensures
        c.method == Method::Post,
        c.path@ == spec_worker_path(tid@, w@) + "/interrupt"@,
        c.query@.len() == 0,
        c.body is Empty,
{
    worker_plain_request(tid, w, Method::Post, "/interrupt")
}

/// Plans a simulated crash of a worker.
pub fn worker_simulated_crash_request(tid: &String, w: &String) -> (c: HttpCall)
    ensures
        c.method == Method::Post,
        c.path@ == spec_worker_path(tid@, w@) + "/simulated-crash"@,
        c.query@.len() == 0,
        c.body is Empty,
{
    worker_plain_request(tid, w, Method::Post, "/simulated-crash")
}

/// Plans the opening of the log stream of a worker; the transport keeps the
/// connection open and forwards each event until it is cancelled.
pub fn worker_connect_request(tid: &String, w: &String) -> (c: HttpCall)
    ensures
        c.method == Method::Get,
        c.path@ == spec_worker_path(tid@, w@) + "/connect"@,
        c.query@.len() == 0,
        c.body is Empty,
{
    worker_plain_request(tid, w, Method::Get, "/connect")
}

/// The shape of the one call that obtains an invocation key:
/// `POST {worker}/key` with nothing else.
pub open spec fn spec_is_key_request(c: HttpCall, tid: Seq<char>, w: Seq<char>) -> bool {
    &&& c.method == Method::Post
    &&& c.path@ == spec_worker_path(tid, w) + "/key"@
    &&& c.query@.len() == 0
    &&& c.body is Empty
}

/// Plans the request for a fresh invocation key.
pub fn invocation_key_request(tid: &String, w: &String) -> (c: HttpCall)
    ensures
        spec_is_key_request(c, tid@, w@),
{
    worker_plain_request(tid, w, Method::Post, "/key")
}

/// The shape of an invocation call: `POST {worker}/invoke-and-await` or
/// `{worker}/invoke`, the key and function in the query, the parameters as
/// the body.
pub open spec fn spec_is_invoke_request(
    c: HttpCall,
    tid: Seq<char>,
    w: Seq<char>,
    function: Seq<char>,
    key: Seq<char>,
    params: serde_json::Value,
    suffix: Seq<char>,
) -> bool {
    &&& c.method == Method::Post
    &&& c.path@ == spec_worker_path(tid, w) + suffix
    &&& c.query@.len() >= 2
    &&& c.query@[0].0@ == "invocation-key"@
    &&& c.query@[0].1@ == key
    &&& c.query@[1].0@ == "function"@
    &&& c.query@[1].1@ == function
    &&& (c.body matches RequestBody::JsonValue(v) && v == params)
}

/// Plans a fire-and-forget invocation, carrying the key it was given
/// unchanged.
pub fn invoke_request(
    tid: &String,
    w: &String,
    function: &String,
    params: serde_json::Value,
    key: &InvocationKey,
) -> (c: HttpCall)
    ensures
        spec_is_invoke_request(c, tid@, w@, function@, key.value@, params, "/invoke"@),
        c.query@.len() == 2,
{
    let mut query: Vec<(String, String)> = Vec::new();
    query.push(query_pair("invocation-key", key.value.clone()));
    query.push(query_pair("function", function.clone()));
    HttpCall {
        method: Method::Post,
        path: worker_path(tid, w, "/invoke"),
        query,
        body: RequestBody::JsonValue(params),
    }
}

/// Plans the blocking invocation, carrying the key it was given unchanged
/// and the calling convention.
pub fn invoke_and_await_request(
    tid: &String,
    w: &String,
    function: &String,
    params: serde_json::Value,
    key: &InvocationKey,
    convention: CallingConvention,
) -> (c: HttpCall)
    ensures
        spec_is_invoke_request(c, tid@, w@, function@, key.value@, params, "/invoke-and-await"@),
        c.query@.len() == 3,
        c.query@[2].0@ == "calling-convention"@,
        c.query@[2].1@ == (if convention is Stdio {
            "stdio"@
        } else {
            "component"@
        }),
{
    let mut query: Vec<(String, String)> = Vec::new();
    query.push(query_pair("invocation-key", key.value.clone()));
    query.push(query_pair("function", function.clone()));
    let conv = match convention {
        CallingConvention::Stdio => "stdio",
        CallingConvention::Component => "component",
    };
    let mut conv_chars: Vec<char> = Vec::new();
    crate::text::push_chars(&mut conv_chars, conv);
    query.push(query_pair("calling-convention", crate::text::chars_to_string(&conv_chars)));
    HttpCall {
        method: Method::Post,
        path: worker_path(tid, w, "/invoke-and-await"),
        query,
        body: RequestBody::JsonValue(params),
    }
}

/// Whether a call hands the server this invocation key.
pub open spec fn spec_carries_key(c: HttpCall, key: Seq<char>) -> bool {
    exists|i: int|
        0 <= i < c.query@.len() && #[trigger] c.query@[i].0@ == "invocation-key"@ && c.query@[i].1@
            == key
}

/// The invocation-key discipline of `invoke-and-await`: the plan issues
/// exactly one key request — the invocation call itself is none — and of
/// the two planned calls only the invocation carries the key, unchanged.
/// The key is therefore consumed exactly once.
pub proof fn lemma_invoke_and_await_key_discipline(
    a: HttpCall,
    b: HttpCall,
    tid: Seq<char>,
    w: Seq<char>,
    function: Seq<char>,
    key: Seq<char>,
    params: serde_json::Value,
)
    requires
        spec_is_key_request(a, tid, w),
        spec_is_invoke_request(b, tid, w, function, key, params, "/invoke-and-await"@),
    ensures
        !spec_is_key_request(b, tid, w),
        b.query@[0].1@ == key,
        !spec_carries_key(a, key),
        spec_carries_key(b, key),
{
    reveal_strlit("/key");
    reveal_strlit("/invoke-and-await");
    assert(a.path@.len() == spec_worker_path(tid, w).len() + 4);
    assert(b.path@.len() == spec_worker_path(tid, w).len() + 17);
    assert(b.query@[0].0@ == "invocation-key"@ && b.query@[0].1@ == key);
}

/// Wraps a worker decoded from the server answer as the handler result.
pub fn worker_result(w: Worker) -> (r: GolemResult)
    ensures
        r == GolemResult::Item(Renderable::Worker(w)),
{
    GolemResult::Item(Renderable::Worker(w))
}

/// Wraps a list of workers decoded from the server answer as the handler
/// result.
pub fn workers_result(ws: Vec<Worker>) -> (r: GolemResult)
    ensures
        r == GolemResult::Item(Renderable::Workers(ws)),
{
    GolemResult::Item(Renderable::Workers(ws))
}

/// Wraps a freshly obtained invocation key as the handler result.
pub fn invocation_key_result(k: InvocationKey) -> (r: GolemResult)
    ensures
        r == GolemResult::Item(Renderable::InvocationKey(k)),
{
    GolemResult::Item(Renderable::InvocationKey(k))
}

/// Wraps the value a blocking invocation returned as the handler result.
pub fn invoke_result(v: serde_json::Value) -> (r: GolemResult)
    ensures
        r == GolemResult::Json(v),
{
    GolemResult::Json(v)
}

/// The message confirming a worker operation without a payload.
fn message_result(text: &str) -> (r: GolemResult)
    ensures
        r matches GolemResult::Str(s) && s@ == text@,
{
    let mut out: Vec<char> = Vec::new();
    crate::text::push_chars(&mut out, text);
    proof {
        assert(out@ =~= text@);
    }
    GolemResult::Str(crate::text::chars_to_string(&out))
}

/// The result of a successful deletion.
pub fn deleted_result() -> (r: GolemResult)
    ensures
        r matches GolemResult::Str(s) && s@ == "deleted"@,
{
    message_result("deleted")
}

/// The result of a successful fire-and-forget invocation.
pub fn invoked_result() -> (r: GolemResult)
    ensures
        r matches GolemResult::Str(s) && s@ == "invoked"@,
{
    message_result("invoked")
}

/// The result of a successful interruption.
pub fn interrupted_result() -> (r: GolemResult)
    ensures
        r matches GolemResult::Str(s) && s@ == "interrupted"@,
{
    message_result("interrupted")
}

/// The result of a successfully simulated crash.
pub fn crash_result() -> (r: GolemResult)
    ensures
        r matches GolemResult::Str(s) && s@ == "crash simulated"@,
{
    message_result("crash simulated")
}

} // verus!

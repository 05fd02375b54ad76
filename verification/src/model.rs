//! The shared data model: output formats, verbosity, identifiers, domain
//! records, the handler result carrier, the error taxonomy and exit codes.

use vstd::prelude::*;
use crate::text::chars_to_string;
use crate::text::push_chars;
use crate::text::push_string;

verus! {

/// Output format selected by the global `--format` flag; `Yaml` is the
/// default, `Text` is the tabular human view.
#[derive(Clone, Copy, Debug, PartialEq, Eq, Structural)]
pub enum Format {
    Yaml,
    Json,
    Text,
}

/// Log level driving the logging filter exactly once at startup.
#[derive(Clone, Copy, Debug, PartialEq, Eq, Structural)]
pub enum Verbosity {
    Off,
    Error,
    Warn,
    Info,
    Debug,
    Trace,
}

/// Server-assigned opaque template identifier.
pub struct TemplateId {
    pub value: String,
}

/// Human-readable template name, unique per owner.
pub struct TemplateName {
    pub value: String,
}

/// Worker name, unique within its template.
pub struct WorkerName {
    pub value: String,
}

/// Single-use token protecting a synchronous invocation against duplicate
/// execution across retries.
pub struct InvocationKey {
    pub value: String,
}

/// A template as reported by the control-plane: identifier, name and a
/// version counter.
pub struct Template {
    pub id: TemplateId,
    pub name: TemplateName,
    pub version: u64,
}

/// Lifecycle state of a worker.
#[derive(Clone, Copy, Debug, PartialEq, Eq, Structural)]
pub enum WorkerStatus {
    Running,
    Suspended,
    Interrupted,
    Failed,
    Exited,
}

/// A worker: identified by its template and its name, with a lifecycle
/// status.
pub struct Worker {
    pub template_id: TemplateId,
    pub name: WorkerName,
    pub status: WorkerStatus,
}

/// The error taxonomy. Every failure of the pipeline is one of these kinds
/// and is surfaced on stderr with a non-zero exit code.
#[derive(Debug)]
pub enum GolemError {
    /// Bad URL or unreadable file.
    InvalidConfig(String),
    /// Unparseable JSON parameters or an illegal name.
    InvalidArgument(String),
    /// Resource missing on the server, or unknown example.
    NotFound(String),
    /// A template name matched more than one template; carries the candidate
    /// identifiers.
    Ambiguous(Vec<String>),
    /// Non-2xx HTTP answer with a server-supplied body.
    ApiError(String),
    /// Connection refused, TLS failure and the like.
    Transport(String),
    /// User interrupt.
    Cancelled,
    /// Scaffold target directory already present.
    AlreadyExists(String),
}

/// A domain object that knows how to render itself in any `Format`.
pub enum Renderable {
    Template(Template),
    Templates(Vec<Template>),
    Worker(Worker),
    Workers(Vec<Worker>),
    InvocationKey(InvocationKey),
    Examples(Vec<crate::examples::Example>),
}

/// The handler return carrier.
pub enum GolemResult {
    /// A domain object rendered according to the format flag.
    Item(Renderable),
    /// A pre-rendered message, emitted as-is whatever the format.
    Str(String),
    /// A structured value serialised per format.
    Json(serde_json::Value),
}

/// Final outcome of one run of the pipeline, as seen by the entry point.
pub enum RunOutcome {
    /// The handler finished and its result was rendered.
    Success,
    /// The argument parser rejected the input tree.
    ParseFailure,
    /// A handler or API error bubbled up.
    Failure(GolemError),
}

/// Process exit code for an outcome: 2 for a parse failure, 0 for success,
/// 130 for a user interrupt, 1 for every other error.
pub fn exit_code_of(outcome: &RunOutcome) -> (code: u8)
    ensures
        code == 0 <==> outcome is Success,
        code == 2 <==> outcome is ParseFailure,
        outcome matches RunOutcome::Failure(e) ==> (if e is Cancelled {
            code == 130
        } else {
            code == 1
        }),
{
    match outcome {
        RunOutcome::Success => 0,
        RunOutcome::ParseFailure => 2,
        RunOutcome::Failure(e) => match e {
            GolemError::Cancelled => 130,
            _ => 1,
        },
    }
}

/// The worker status a wire string names, if any.
pub open spec fn spec_worker_status_of(s: Seq<char>) -> Option<WorkerStatus> {
    if s == "Running"@ {
        Option::Some(WorkerStatus::Running)
    } else if s == "Suspended"@ {
        Option::Some(WorkerStatus::Suspended)
    } else if s == "Interrupted"@ {
        Option::Some(WorkerStatus::Interrupted)
    } else if s == "Failed"@ {
        Option::Some(WorkerStatus::Failed)
    } else if s == "Exited"@ {
        Option::Some(WorkerStatus::Exited)
    } else {
        Option::None
    }
}

/// Decodes the status string the control-plane reports. A string naming no
/// known status is surfaced as an API error carrying the string, never
/// mapped to a default.
pub fn worker_status_of(s: &String) -> (r: Result<WorkerStatus, GolemError>)
    ensures
        r matches Ok(st) ==> spec_worker_status_of(s@) == Some(st),
        r is Ok <==> spec_worker_status_of(s@) is Some,
        r matches Err(e) ==> (e matches GolemError::ApiError(m) && m@ == "unknown worker status: "@
            + s@),
{
    if crate::text::str_eq(s, "Running") {
        Ok(WorkerStatus::Running)
    } else if crate::text::str_eq(s, "Suspended") {
        Ok(WorkerStatus::Suspended)
    } else if crate::text::str_eq(s, "Interrupted") {
        Ok(WorkerStatus::Interrupted)
    } else if crate::text::str_eq(s, "Failed") {
        Ok(WorkerStatus::Failed)
    } else if crate::text::str_eq(s, "Exited") {
        Ok(WorkerStatus::Exited)
    } else {
        let mut out: Vec<char> = Vec::new();
        push_chars(&mut out, "unknown worker status: ");
        push_string(&mut out, s);
        Err(GolemError::ApiError(chars_to_string(&out)))
    }
}

/// The candidates joined by commas.
pub open spec fn spec_join_comma(c: Seq<String>) -> Seq<char>
    decreases c.len(),
{
    if c.len() == 0 {
        Seq::empty()
    } else {
        c.first()@ + (if c.len() > 1 {
            ", "@
        } else {
            Seq::empty()
        }) + spec_join_comma(c.drop_first())
    }
}

/// The stderr message of an error.
pub open spec fn spec_error_message(e: GolemError) -> Seq<char> {
    match e {
        GolemError::InvalidConfig(m) => "invalid configuration: "@ + m@,
        GolemError::InvalidArgument(m) => "invalid argument: "@ + m@,
        GolemError::NotFound(m) => "not found: "@ + m@,
        GolemError::Ambiguous(c) => "ambiguous template name; candidates: "@ + spec_join_comma(c@),
        GolemError::ApiError(m) => "API error: "@ + m@,
        GolemError::Transport(m) => "transport error: "@ + m@,
        GolemError::Cancelled => "cancelled"@,
        GolemError::AlreadyExists(m) => "already exists: "@ + m@,
    }
}

/// Formats an error for stderr.
pub fn error_message(e: &GolemError) -> (r: String)
    ensures
        r@ == spec_error_message(*e),
{
    let mut out: Vec<char> = Vec::new();
    match e {
        GolemError::InvalidConfig(m) => {
            push_chars(&mut out, "invalid configuration: ");
            push_string(&mut out, m);
        },
        GolemError::InvalidArgument(m) => {
            push_chars(&mut out, "invalid argument: ");
            push_string(&mut out, m);
        },
        GolemError::NotFound(m) => {
            push_chars(&mut out, "not found: ");
            push_string(&mut out, m);
        },
        GolemError::Ambiguous(c) => {
            push_chars(&mut out, "ambiguous template name; candidates: ");
            let ghost sc = c@;
            let ghost mark = out@;
            let mut i: usize = 0;
            proof {
                assert(sc.skip(0) =~= sc);
            }
            while i < c.len()
                invariant
                    i <= c@.len(),
                    sc == c@,
                    out@ + spec_join_comma(sc.skip(i as int)) == mark + spec_join_comma(sc),
                decreases c@.len() - i,
            {
                proof {
                    assert(sc.skip(i as int).first() == sc[i as int]);
                    assert(sc.skip(i as int).drop_first() =~= sc.skip(i + 1 as int));
                }
                let ghost before = out@;
                push_string(&mut out, &c[i]);
                if i + 1 < c.len() {
                    push_chars(&mut out, ", ");
                    proof {
                        assert(out@ =~= before + (sc[i as int]@ + ", "@));
                    }
                } else {
                    proof {
                        assert(out@ =~= before + (sc[i as int]@ + Seq::<char>::empty()));
                    }
                }
                proof {
                    assert(out@ + spec_join_comma(sc.skip(i + 1 as int)) =~= before
                        + spec_join_comma(sc.skip(i as int)));
                }
                i = i + 1;
            }
            proof {
                assert(spec_join_comma(sc.skip(sc.len() as int)) =~= Seq::<char>::empty());
                assert(out@ =~= mark + spec_join_comma(sc));
            }
        },
        GolemError::ApiError(m) => {
            push_chars(&mut out, "API error: ");
            push_string(&mut out, m);
        },
        GolemError::Transport(m) => {
            push_chars(&mut out, "transport error: ");
            push_string(&mut out, m);
        },
        GolemError::Cancelled => {
            push_chars(&mut out, "cancelled");
        },
        GolemError::AlreadyExists(m) => {
            push_chars(&mut out, "already exists: ");
            push_string(&mut out, m);
        },
    }
    chars_to_string(&out)
}

} // verus!

//! The command model: a verified parser from the argument vector to the
//! typed command tree. Global flags are accepted anywhere; the remaining
//! tokens form the subcommand with its options. Unknown flags are rejected,
//! required options enforced, and values typed.

use vstd::prelude::*;
use vstd::string::StrSliceExecFns;
use crate::config::spec_verbosity;
use crate::config::verbosity_of;
use crate::examples::GuestLanguage;
use crate::model::Format;
use crate::model::Verbosity;
use crate::template::TemplateRef;
use crate::template::TemplateSubcommand;
use crate::text::str_eq;
use crate::worker::WorkerSubcommand;

verus! {

/// A required option of the command tree, named for diagnostics without
/// carrying text around.
#[derive(Clone, Copy, Debug, PartialEq, Eq, Structural)]
pub enum OptKey {
    TemplateId,
    TemplateName,
    TemplateFile,
    WorkerName,
    Function,
    Parameters,
    Example,
    PackageName,
    MinTier,
    Language,
}

/// Why the argument vector was rejected. The exit code for every one of
/// these is 2.
pub enum ParseError {
    /// No subcommand was given.
    MissingCommand,
    /// The token is not a known subcommand.
    UnknownCommand(String),
    /// The flag is not known to the subcommand.
    UnknownFlag(String),
    /// A bare token stood where a flag was expected.
    UnexpectedArgument(String),
    /// The flag came last, with no value following it.
    MissingValue(String),
    /// The value is not of the type the flag asks for.
    BadValue(String),
    /// A global flag was given twice.
    DuplicateFlag(String),
    /// A required option was not given.
    MissingOption(OptKey),
    /// The template was given both by identifier and by name.
    ConflictingOptions(OptKey, OptKey),
}

/// The global options collected from anywhere in the argument vector.
pub struct Globals {
    pub format: Option<Format>,
    pub url: Option<String>,
    pub verbose: u8,
    pub quiet: bool,
    pub help: bool,
    pub version: bool,
}

/// The output format a `--format` value names.
pub open spec fn spec_parse_format(s: Seq<char>) -> Option<Format> {
    if s == "yaml"@ {
        Option::Some(Format::Yaml)
    } else if s == "json"@ {
        Option::Some(Format::Json)
    } else if s == "text"@ {
        Option::Some(Format::Text)
    } else {
        Option::None
    }
}

/// Parses a `--format` value.
pub fn parse_format(s: &String) -> (r: Option<Format>)
    ensures
        r == spec_parse_format(s@),
{
    if str_eq(s, "yaml") {
        Some(Format::Yaml)
    } else if str_eq(s, "json") {
        Some(Format::Json)
    } else if str_eq(s, "text") {
        Some(Format::Text)
    } else {
        None
    }
}

pub open spec fn spec_is_format_flag(t: String) -> bool {
    t@ == "--format"@ || t@ == "-F"@
}

pub open spec fn spec_is_url_flag(t: String) -> bool {
    t@ == "--golem-url"@ || t@ == "-u"@
}

pub open spec fn spec_verbose_incr(t: String) -> nat {
    if t@ == "-v"@ || t@ == "--verbose"@ {
        1
    } else if t@ == "-vv"@ {
        2
    } else if t@ == "-vvv"@ {
        3
    } else {
        0
    }
}

pub open spec fn spec_is_quiet_flag(t: String) -> bool {
    t@ == "-q"@ || t@ == "--quiet"@
}

pub open spec fn spec_is_help_flag(t: String) -> bool {
    t@ == "-h"@ || t@ == "--help"@
}

pub open spec fn spec_is_version_flag(t: String) -> bool {
    t@ == "-V"@ || t@ == "--version"@
}

/// Adds to the verbosity count without wrapping.
pub open spec fn spec_sat_add(v: u8, k: nat) -> u8 {
    if v + k > 255 {
        255u8
    } else {
        (v + k) as u8
    }
}

/// Splits the argument vector into the global options and the remaining
/// tokens, kept in order. A global value flag must be followed by its
/// value; `--format` and `--golem-url` may each be given once.
pub open spec fn spec_scan(args: Seq<String>) -> Result<(Globals, Seq<String>), ParseError>
    decreases args.len(),
{
    if args.len() == 0 {
        Result::Ok(
            (
                Globals {
                    format: Option::None,
                    url: Option::None,
                    verbose: 0,
                    quiet: false,
                    help: false,
                    version: false,
                },
                Seq::empty(),
            ),
        )
    } else {
        let t = args.first();
        if spec_is_format_flag(t) {
            if args.len() < 2 {
                Result::Err(ParseError::MissingValue(t))
            } else {
                match spec_parse_format(args[1]@) {
                    Option::None => Result::Err(ParseError::BadValue(args[1])),
                    Option::Some(f) => match spec_scan(args.skip(2)) {
                        Result::Err(e) => Result::Err(e),
                        Result::Ok((g, rest)) => if g.format is Some {
                            Result::Err(ParseError::DuplicateFlag(t))
                        } else {
                            Result::Ok((Globals { format: Option::Some(f), ..g }, rest))
                        },
                    },
                }
            }
        } else if spec_is_url_flag(t) {
            if args.len() < 2 {
                Result::Err(ParseError::MissingValue(t))
            } else {
                match spec_scan(args.skip(2)) {
                    Result::Err(e) => Result::Err(e),
                    Result::Ok((g, rest)) => if g.url is Some {
                        Result::Err(ParseError::DuplicateFlag(t))
                    } else {
                        Result::Ok((Globals { url: Option::Some(args[1]), ..g }, rest))
                    },
                }
            }
        } else if spec_verbose_incr(t) > 0 {
            match spec_scan(args.drop_first()) {
                Result::Err(e) => Result::Err(e),
                Result::Ok((g, rest)) => Result::Ok(
                    (Globals { verbose: spec_sat_add(g.verbose, spec_verbose_incr(t)), ..g }, rest),
                ),
            }
        } else if spec_is_quiet_flag(t) {
            match spec_scan(args.drop_first()) {
                Result::Err(e) => Result::Err(e),
                Result::Ok((g, rest)) => Result::Ok((Globals { quiet: true, ..g }, rest)),
            }
        } else if spec_is_help_flag(t) {
            match spec_scan(args.drop_first()) {
                Result::Err(e) => Result::Err(e),
                Result::Ok((g, rest)) => Result::Ok((Globals { help: true, ..g }, rest)),
            }
        } else if spec_is_version_flag(t) {
            match spec_scan(args.drop_first()) {
                Result::Err(e) => Result::Err(e),
                Result::Ok((g, rest)) => Result::Ok((Globals { version: true, ..g }, rest)),
            }
        } else {
            match spec_scan(args.drop_first()) {
                Result::Err(e) => Result::Err(e),
                Result::Ok((g, rest)) => Result::Ok((g, rest.insert(0, t))),
            }
        }
    }
}

/// Scans the argument vector from position `i` for global flags.
fn scan_globals(args: &Vec<String>, i: usize) -> (r: Result<(Globals, Vec<String>), ParseError>)
    requires
        i <= args@.len(),
    ensures
        match r {
            Result::Ok(p) => (spec_scan(args@.skip(i as int)) matches Result::Ok(q) && q.0 == p.0
                && q.1 == p.1@),
            Result::Err(e) => spec_scan(args@.skip(i as int)) == Result::<
                (Globals, Seq<String>),
                ParseError,
            >::Err(e),
        },
    decreases args@.len() - i,
{
    if i >= args.len() {
        proof {
            assert(args@.skip(i as int) =~= Seq::<String>::empty());
        }
        return Ok(
            (
                Globals {
                    format: None,
                    url: None,
                    verbose: 0,
                    quiet: false,
                    help: false,
                    version: false,
                },
                Vec::new(),
            ),
        );
    }
    let ghost suffix = args@.skip(i as int);
    proof {
        assert(suffix.first() == args@[i as int]);
        assert(suffix.drop_first() =~= args@.skip(i + 1 as int));
        if args@.len() - i >= 2 {
            assert(suffix.skip(2) =~= args@.skip(i + 2 as int));
            assert(suffix[1] == args@[i + 1 as int]);
        }
    }
    let t = &args[i];
    let is_format = str_eq(t, "--format") || str_eq(t, "-F");
    let is_url = str_eq(t, "--golem-url") || str_eq(t, "-u");
    let verbose_incr: u8 = if str_eq(t, "-v") || str_eq(t, "--verbose") {
        1
    } else if str_eq(t, "-vv") {
        2
    } else if str_eq(t, "-vvv") {
        3
    } else {
        0
    };
    if is_format {
        if i + 1 >= args.len() {
            return Err(ParseError::MissingValue(t.clone()));
        }
        match parse_format(&args[i + 1]) {
            None => Err(ParseError::BadValue(args[i + 1].clone())),
            Some(f) => match scan_globals(args, i + 2) {
                Err(e) => Err(e),
                Ok((g, rest)) => {
                    if g.format.is_some() {
                        Err(ParseError::DuplicateFlag(t.clone()))
                    } else {
                        Ok((Globals { format: Some(f), ..g }, rest))
                    }
                },
            },
        }
    } else if is_url {
        if i + 1 >= args.len() {
            return Err(ParseError::MissingValue(t.clone()));
        }
        match scan_globals(args, i + 2) {
            Err(e) => Err(e),
            Ok((g, rest)) => {
                if g.url.is_some() {
                    Err(ParseError::DuplicateFlag(t.clone()))
                } else {
                    Ok((Globals { url: Some(args[i + 1].clone()), ..g }, rest))
                }
            },
        }
    } else if verbose_incr > 0 {
        match scan_globals(args, i + 1) {
            Err(e) => Err(e),
            Ok((g, rest)) => {
                let v = if g.verbose as u64 + verbose_incr as u64 > 255 {
                    255
                } else {
                    g.verbose + verbose_incr
                };
                Ok((Globals { verbose: v, ..g }, rest))
            },
        }
    } else if str_eq(t, "-q") || str_eq(t, "--quiet") {
        match scan_globals(args, i + 1) {
            Err(e) => Err(e),
            Ok((g, rest)) => Ok((Globals { quiet: true, ..g }, rest)),
        }
    } else if str_eq(t, "-h") || str_eq(t, "--help") {
        match scan_globals(args, i + 1) {
            Err(e) => Err(e),
            Ok((g, rest)) => Ok((Globals { help: true, ..g }, rest)),
        }
    } else if str_eq(t, "-V") || str_eq(t, "--version") {
        match scan_globals(args, i + 1) {
            Err(e) => Err(e),
            Ok((g, rest)) => Ok((Globals { version: true, ..g }, rest)),
        }
    } else {
        match scan_globals(args, i + 1) {
            Err(e) => Err(e),
            Ok((g, mut rest)) => {
                rest.insert(0, t.clone());
                Ok((g, rest))
            },
        }
    }
}

/// One parsed option: the flag token and its value; only the valueless
/// `--use-stdio` flag carries no value.
pub open spec fn spec_is_bool_flag(t: String) -> bool {
    t@ == "--use-stdio"@
}

/// Pairs the subcommand's tokens into options: each flag takes the token
/// after it as its value, a bare token where a flag was expected is
/// rejected.
pub open spec fn spec_parse_opts(toks: Seq<String>) -> Result<
    Seq<(String, Option<String>)>,
    ParseError,
>
    decreases toks.len(),
{
    if toks.len() == 0 {
        Result::Ok(Seq::empty())
    } else {
        let t = toks.first();
        if t@.len() >= 1 && t@[0] == '-' {
            if spec_is_bool_flag(t) {
                match spec_parse_opts(toks.drop_first()) {
                    Result::Err(e) => Result::Err(e),
                    Result::Ok(opts) => Result::Ok(opts.insert(0, (t, Option::None))),
                }
            } else if toks.len() < 2 {
                Result::Err(ParseError::MissingValue(t))
            } else {
                match spec_parse_opts(toks.skip(2)) {
                    Result::Err(e) => Result::Err(e),
                    Result::Ok(opts) => Result::Ok(opts.insert(0, (t, Option::Some(toks[1])))),
                }
            }
        } else {
            Result::Err(ParseError::UnexpectedArgument(t))
        }
    }
}

/// Pairs the subcommand's tokens into options, from position `i`.
fn parse_opts(toks: &Vec<String>, i: usize) -> (r: Result<
    Vec<(String, Option<String>)>,
    ParseError,
>)
    requires
        i <= toks@.len(),
    ensures
        match r {
            Result::Ok(opts) => (spec_parse_opts(toks@.skip(i as int)) matches Result::Ok(q) && q
                == opts@),
            Result::Err(e) => spec_parse_opts(toks@.skip(i as int)) == Result::<
                Seq<(String, Option<String>)>,
                ParseError,
            >::Err(e),
        },
    decreases toks@.len() - i,
{
    if i >= toks.len() {
        proof {
            assert(toks@.skip(i as int) =~= Seq::<String>::empty());
        }
        return Ok(Vec::new());
    }
    let ghost suffix = toks@.skip(i as int);
    proof {
        assert(suffix.first() == toks@[i as int]);
        assert(suffix.drop_first() =~= toks@.skip(i + 1 as int));
        if toks@.len() - i >= 2 {
            assert(suffix.skip(2) =~= toks@.skip(i + 2 as int));
            assert(suffix[1] == toks@[i + 1 as int]);
        }
    }
    let t = &toks[i];
    let tl = t.as_str();
    let is_flag = tl.unicode_len() >= 1 && tl.get_char(0) == '-';
    if is_flag {
        if str_eq(t, "--use-stdio") {
            match parse_opts(toks, i + 1) {
                Err(e) => Err(e),
                Ok(mut opts) => {
                    opts.insert(0, (t.clone(), None));
                    Ok(opts)
                },
            }
        } else if i + 1 >= toks.len() {
            Err(ParseError::MissingValue(t.clone()))
        } else {
            match parse_opts(toks, i + 2) {
                Err(e) => Err(e),
                Ok(mut opts) => {
                    opts.insert(0, (t.clone(), Some(toks[i + 1].clone())));
                    Ok(opts)
                },
            }
        }
    } else {
        Err(ParseError::UnexpectedArgument(t.clone()))
    }
}

/// The value of the first occurrence of a flag, where it carries one.
pub open spec fn spec_opt_value(opts: Seq<(String, Option<String>)>, key: Seq<char>) -> Option<
    String,
>
    decreases opts.len(),
{
    if opts.len() == 0 {
        Option::None
    } else if opts.first().0@ == key {
        opts.first().1
    } else {
        spec_opt_value(opts.drop_first(), key)
    }
}

/// Whether a flag occurs at all.
pub open spec fn spec_has_flag(opts: Seq<(String, Option<String>)>, key: Seq<char>) -> bool
    decreases opts.len(),
{
    if opts.len() == 0 {
        false
    } else if opts.first().0@ == key {
        true
    } else {
        spec_has_flag(opts.drop_first(), key)
    }
}

/// Every value the flag was given, in order.
pub open spec fn spec_opt_all(opts: Seq<(String, Option<String>)>, key: Seq<char>) -> Seq<String>
    decreases opts.len(),
{
    if opts.len() == 0 {
        Seq::empty()
    } else {
        let pre = spec_opt_all(opts.drop_last(), key);
        if opts.last().0@ == key && opts.last().1 is Some {
            pre.push(opts.last().1.unwrap())
        } else {
            pre
        }
    }
}

/// Looks up the value of the first occurrence of a flag.
fn opt_value(opts: &Vec<(String, Option<String>)>, key: &str) -> (r: Option<String>)
    ensures
        r == spec_opt_value(opts@, key@),
{
    proof {
        assert(opts@.skip(0) =~= opts@);
    }
    let mut i: usize = 0;
    while i < opts.len()
        invariant
            i <= opts@.len(),
            spec_opt_value(opts@, key@) == spec_opt_value(opts@.skip(i as int), key@),
        decreases opts@.len() - i,
    {
        proof {
            assert(opts@.skip(i as int).first() == opts@[i as int]);
            assert(opts@.skip(i as int).drop_first() =~= opts@.skip(i + 1 as int));
        }
        if str_eq(&opts[i].0, key) {
            return match &opts[i].1 {
                Some(v) => Some(v.clone()),
                None => None,
            };
        }
        i = i + 1;
    }
    proof {
        assert(opts@.skip(opts@.len() as int) =~= Seq::<(String, Option<String>)>::empty());
    }
    None
}

/// Whether a flag occurs at all.
fn has_flag(opts: &Vec<(String, Option<String>)>, key: &str) -> (r: bool)
    ensures
        r == spec_has_flag(opts@, key@),
{
    proof {
        assert(opts@.skip(0) =~= opts@);
    }
    let mut i: usize = 0;
    while i < opts.len()
        invariant
            i <= opts@.len(),
            spec_has_flag(opts@, key@) == spec_has_flag(opts@.skip(i as int), key@),
        decreases opts@.len() - i,
    {
        proof {
            assert(opts@.skip(i as int).first() == opts@[i as int]);
            assert(opts@.skip(i as int).drop_first() =~= opts@.skip(i + 1 as int));
        }
        if str_eq(&opts[i].0, key) {
            return true;
        }
        i = i + 1;
    }
    proof {
        assert(opts@.skip(opts@.len() as int) =~= Seq::<(String, Option<String>)>::empty());
    }
    false
}

/// Collects every value the flag was given, in order.
fn opt_all(opts: &Vec<(String, Option<String>)>, key: &str) -> (r: Vec<String>)
    ensures
        r@ == spec_opt_all(opts@, key@),
{
    let mut out: Vec<String> = Vec::new();
    let mut i: usize = 0;
    while i < opts.len()
        invariant
            i <= opts@.len(),
            out@ == spec_opt_all(opts@.take(i as int), key@),
        decreases opts@.len() - i,
    {
        proof {
            assert(opts@.take(i + 1 as int).drop_last() =~= opts@.take(i as int));
            assert(opts@.take(i + 1 as int).last() == opts@[i as int]);
        }
        if str_eq(&opts[i].0, key) {
            match &opts[i].1 {
                Some(v) => out.push(v.clone()),
                None => {},
            }
        }
        i = i + 1;
    }
    proof {
        assert(opts@.take(opts@.len() as int) =~= opts@);
    }
    out
}

/// Which leaf of the command tree is being parsed; decides which flags are
/// known.
#[derive(Clone, Copy, Debug, PartialEq, Eq, Structural)]
pub enum LeafKind {
    TplAdd,
    TplUpdate,
    TplList,
    TplGet,
    WkAdd,
    WkDelete,
    WkGet,
    WkList,
    WkInvoke,
    WkInvokeAndAwait,
    WkInvocationKey,
    WkConnect,
    WkInterrupt,
    WkSimulatedCrash,
    NewProject,
    ListExamples,
}

/// Whether a flag names the template by identifier or by name.
pub open spec fn spec_is_target_key(t: String) -> bool {
    t@ == "--template-id"@ || t@ == "--template-name"@
}

/// Whether a flag is known to the given leaf.
pub open spec fn spec_key_ok(kind: LeafKind, t: String) -> bool {
    match kind {
        LeafKind::TplAdd => t@ == "--template-name"@ || t@ == "--template-file"@,
        LeafKind::TplUpdate => spec_is_target_key(t) || t@ == "--template-file"@,
        LeafKind::TplList => t@ == "--template-name"@,
        LeafKind::TplGet => spec_is_target_key(t),
        LeafKind::WkAdd => spec_is_target_key(t) || t@ == "--worker-name"@ || t@ == "--env"@ || t@
            == "--args"@,
        LeafKind::WkList => spec_is_target_key(t),
        LeafKind::WkInvoke => spec_is_target_key(t) || t@ == "--worker-name"@ || t@
            == "--function"@ || t@ == "--parameters"@,
        LeafKind::WkInvokeAndAwait => spec_is_target_key(t) || t@ == "--worker-name"@ || t@
            == "--function"@ || t@ == "--parameters"@ || t@ == "--use-stdio"@,
        LeafKind::NewProject => t@ == "--example"@ || t@ == "--template-name"@ || t@
            == "--package-name"@,
        LeafKind::ListExamples => t@ == "--min-tier"@ || t@ == "--language"@,
        _ => spec_is_target_key(t) || t@ == "--worker-name"@,
    }
}

/// The first flag the leaf does not know, if any.
pub open spec fn spec_first_unknown(kind: LeafKind, opts: Seq<(String, Option<String>)>) -> Option<
    String,
>
    decreases opts.len(),
{
    if opts.len() == 0 {
        Option::None
    } else if !spec_key_ok(kind, opts.first().0) {
        Option::Some(opts.first().0)
    } else {
        spec_first_unknown(kind, opts.drop_first())
    }
}

/// Whether a flag is known to the given leaf.
fn key_ok(kind: LeafKind, t: &String) -> (r: bool)
    ensures
        r == spec_key_ok(kind, *t),
{
    let target = str_eq(t, "--template-id") || str_eq(t, "--template-name");
    match kind {
        LeafKind::TplAdd => str_eq(t, "--template-name") || str_eq(t, "--template-file"),
        LeafKind::TplUpdate => target || str_eq(t, "--template-file"),
        LeafKind::TplList => str_eq(t, "--template-name"),
        LeafKind::TplGet => target,
        LeafKind::WkAdd => target || str_eq(t, "--worker-name") || str_eq(t, "--env") || str_eq(
            t,
            "--args",
        ),
        LeafKind::WkList => target,
        LeafKind::WkInvoke => target || str_eq(t, "--worker-name") || str_eq(t, "--function")
            || str_eq(t, "--parameters"),
        LeafKind::WkInvokeAndAwait => target || str_eq(t, "--worker-name") || str_eq(
            t,
            "--function",
        ) || str_eq(t, "--parameters") || str_eq(t, "--use-stdio"),
        LeafKind::NewProject => str_eq(t, "--example") || str_eq(t, "--template-name") || str_eq(
            t,
            "--package-name",
        ),
        LeafKind::ListExamples => str_eq(t, "--min-tier") || str_eq(t, "--language"),
        _ => target || str_eq(t, "--worker-name"),
    }
}

/// Finds the first flag the leaf does not know.
fn first_unknown(kind: LeafKind, opts: &Vec<(String, Option<String>)>) -> (r: Option<String>)
    ensures
        match r {
            Option::Some(t) => spec_first_unknown(kind, opts@) matches Option::Some(q) && q == t,
            Option::None => spec_first_unknown(kind, opts@) is None,
        },
{
    proof {
        assert(opts@.skip(0) =~= opts@);
    }
    let mut i: usize = 0;
    while i < opts.len()
        invariant
            i <= opts@.len(),
            spec_first_unknown(kind, opts@) == spec_first_unknown(kind, opts@.skip(i as int)),
        decreases opts@.len() - i,
    {
        proof {
            assert(opts@.skip(i as int).first() == opts@[i as int]);
            assert(opts@.skip(i as int).drop_first() =~= opts@.skip(i + 1 as int));
        }
        if !key_ok(kind, &opts[i].0) {
            return Some(opts[i].0.clone());
        }
        i = i + 1;
    }
    proof {
        assert(opts@.skip(opts@.len() as int) =~= Seq::<(String, Option<String>)>::empty());
    }
    None
}

/// The template reference of a leaf: exactly one of `--template-id` and
/// `--template-name` must be given.
pub open spec fn spec_target(opts: Seq<(String, Option<String>)>) -> Result<
    TemplateRef,
    ParseError,
> {
    match (spec_opt_value(opts, "--template-id"@), spec_opt_value(opts, "--template-name"@)) {
        (Option::Some(_), Option::Some(_)) => Result::Err(
            ParseError::ConflictingOptions(OptKey::TemplateId, OptKey::TemplateName),
        ),
        (Option::Some(v), Option::None) => Result::Ok(TemplateRef::Id(v)),
        (Option::None, Option::Some(v)) => Result::Ok(TemplateRef::Name(v)),
        (Option::None, Option::None) => Result::Err(ParseError::MissingOption(OptKey::TemplateId)),
    }
}

/// Reads the template reference of a leaf.
fn target(opts: &Vec<(String, Option<String>)>) -> (r: Result<TemplateRef, ParseError>)
    ensures
        r == spec_target(opts@),
{
    let id = opt_value(opts, "--template-id");
    let nm = opt_value(opts, "--template-name");
    match (id, nm) {
        (Some(_), Some(_)) => Err(
            ParseError::ConflictingOptions(OptKey::TemplateId, OptKey::TemplateName),
        ),
        (Some(v), None) => Ok(TemplateRef::Id(v)),
        (None, Some(v)) => Ok(TemplateRef::Name(v)),
        (None, None) => Err(ParseError::MissingOption(OptKey::TemplateId)),
    }
}

/// Builds a `template` leaf from its options; called with the four
/// template kinds.
pub open spec fn spec_template_leaf(kind: LeafKind, opts: Seq<(String, Option<String>)>) -> Result<
    TemplateSubcommand,
    ParseError,
> {
    match spec_first_unknown(kind, opts) {
        Option::Some(t) => Result::Err(ParseError::UnknownFlag(t)),
        Option::None => match kind {
            LeafKind::TplAdd => match (
                spec_opt_value(opts, "--template-name"@),
                spec_opt_value(opts, "--template-file"@),
            ) {
                (Option::None, _) => Result::Err(ParseError::MissingOption(OptKey::TemplateName)),
                (_, Option::None) => Result::Err(ParseError::MissingOption(OptKey::TemplateFile)),
                (Option::Some(n), Option::Some(f)) => Result::Ok(
                    TemplateSubcommand::Add { template_name: n, template_file: f },
                ),
            },
            LeafKind::TplUpdate => match (spec_target(opts), spec_opt_value(opts, "--template-file"@)) {
                (Result::Err(e), _) => Result::Err(e),
                (_, Option::None) => Result::Err(ParseError::MissingOption(OptKey::TemplateFile)),
                (Result::Ok(t), Option::Some(f)) => Result::Ok(
                    TemplateSubcommand::Update { template_ref: t, template_file: f },
                ),
            },
            LeafKind::TplList => Result::Ok(
                TemplateSubcommand::List { template_name: spec_opt_value(opts, "--template-name"@) },
            ),
            _ => match spec_target(opts) {
                Result::Err(e) => Result::Err(e),
                Result::Ok(t) => Result::Ok(TemplateSubcommand::Get { template_ref: t }),
            },
        },
    }
}

/// Builds a `template` leaf from its options.
fn template_leaf(kind: LeafKind, opts: &Vec<(String, Option<String>)>) -> (r: Result<
    TemplateSubcommand,
    ParseError,
>)
    ensures
        r == spec_template_leaf(kind, opts@),
{
    match first_unknown(kind, opts) {
        Some(t) => Err(ParseError::UnknownFlag(t)),
        None => match kind {
            LeafKind::TplAdd => match (
                opt_value(opts, "--template-name"),
                opt_value(opts, "--template-file"),
            ) {
                (None, _) => Err(ParseError::MissingOption(OptKey::TemplateName)),
                (_, None) => Err(ParseError::MissingOption(OptKey::TemplateFile)),
                (Some(n), Some(f)) => Ok(
                    TemplateSubcommand::Add { template_name: n, template_file: f },
                ),
            },
            LeafKind::TplUpdate => match (target(opts), opt_value(opts, "--template-file")) {
                (Err(e), _) => Err(e),
                (_, None) => Err(ParseError::MissingOption(OptKey::TemplateFile)),
                (Ok(t), Some(f)) => Ok(
                    TemplateSubcommand::Update { template_ref: t, template_file: f },
                ),
            },
            LeafKind::TplList => Ok(
                TemplateSubcommand::List { template_name: opt_value(opts, "--template-name") },
            ),
            _ => match target(opts) {
                Err(e) => Err(e),
                Ok(t) => Ok(TemplateSubcommand::Get { template_ref: t }),
            },
        },
    }
}

/// The checks every worker leaf but `list` shares: no unknown flag, a
/// template reference, and a worker name.
pub open spec fn spec_worker_common(kind: LeafKind, opts: Seq<(String, Option<String>)>) -> Result<
    (TemplateRef, String),
    ParseError,
> {
    match spec_first_unknown(kind, opts) {
        Option::Some(t) => Result::Err(ParseError::UnknownFlag(t)),
        Option::None => match spec_target(opts) {
            Result::Err(e) => Result::Err(e),
            Result::Ok(tref) => match spec_opt_value(opts, "--worker-name"@) {
                Option::None => Result::Err(ParseError::MissingOption(OptKey::WorkerName)),
                Option::Some(w) => Result::Ok((tref, w)),
            },
        },
    }
}

/// Builds a `worker` leaf from its options; called with the worker kinds
/// other than `add`, whose repeated flags are stated separately.
pub open spec fn spec_worker_leaf(kind: LeafKind, opts: Seq<(String, Option<String>)>) -> Result<
    WorkerSubcommand,
    ParseError,
> {
    match spec_first_unknown(kind, opts) {
        Option::Some(t) => Result::Err(ParseError::UnknownFlag(t)),
        Option::None => match spec_target(opts) {
            Result::Err(e) => Result::Err(e),
            Result::Ok(tref) => if kind is WkList {
                Result::Ok(WorkerSubcommand::List { template_ref: tref })
            } else {
                match spec_opt_value(opts, "--worker-name"@) {
                    Option::None => Result::Err(ParseError::MissingOption(OptKey::WorkerName)),
                    Option::Some(w) => match kind {
                        LeafKind::WkInvoke | LeafKind::WkInvokeAndAwait => match (
                            spec_opt_value(opts, "--function"@),
                            spec_opt_value(opts, "--parameters"@),
                        ) {
                            (Option::None, _) => Result::Err(
                                ParseError::MissingOption(OptKey::Function),
                            ),
                            (_, Option::None) => Result::Err(
                                ParseError::MissingOption(OptKey::Parameters),
                            ),
                            (Option::Some(f), Option::Some(p)) => if kind is WkInvoke {
                                Result::Ok(
                                    WorkerSubcommand::Invoke {
                                        template_ref: tref,
                                        worker_name: w,
                                        function: f,
                                        parameters: p,
                                    },
                                )
                            } else {
                                Result::Ok(
                                    WorkerSubcommand::InvokeAndAwait {
                                        template_ref: tref,
                                        worker_name: w,
                                        function: f,
                                        parameters: p,
                                        use_stdio: spec_has_flag(opts, "--use-stdio"@),
                                    },
                                )
                            },
                        },
                        LeafKind::WkDelete => Result::Ok(
                            WorkerSubcommand::Delete { template_ref: tref, worker_name: w },
                        ),
                        LeafKind::WkGet => Result::Ok(
                            WorkerSubcommand::Get { template_ref: tref, worker_name: w },
                        ),
                        LeafKind::WkInvocationKey => Result::Ok(
                            WorkerSubcommand::InvocationKey { template_ref: tref, worker_name: w },
                        ),
                        LeafKind::WkConnect => Result::Ok(
                            WorkerSubcommand::Connect { template_ref: tref, worker_name: w },
                        ),
                        LeafKind::WkInterrupt => Result::Ok(
                            WorkerSubcommand::Interrupt { template_ref: tref, worker_name: w },
                        ),
                        _ => Result::Ok(
                            WorkerSubcommand::SimulatedCrash { template_ref: tref, worker_name: w },
                        ),
                    },
                }
            },
        },
    }
}

/// Builds a `worker` leaf from its options.
fn worker_leaf(kind: LeafKind, opts: &Vec<(String, Option<String>)>) -> (r: Result<
    WorkerSubcommand,
    ParseError,
>)
    ensures
        !(kind is WkAdd) ==> r == spec_worker_leaf(kind, opts@),
        kind is WkAdd ==> match spec_worker_common(kind, opts@) {
            Result::Err(e) => r == Result::<WorkerSubcommand, ParseError>::Err(e),
            Result::Ok(tw) => (r matches Result::Ok(
                WorkerSubcommand::Add { template_ref, worker_name, env, args },
            ) && template_ref == tw.0 && worker_name == tw.1 && env@ == spec_opt_all(
                opts@,
                "--env"@,
            ) && args@ == spec_opt_all(opts@, "--args"@)),
        },
{
    match first_unknown(kind, opts) {
        Some(t) => Err(ParseError::UnknownFlag(t)),
        None => match target(opts) {
            Err(e) => Err(e),
            Ok(tref) => match kind {
                LeafKind::WkList => Ok(WorkerSubcommand::List { template_ref: tref }),
                _ => match opt_value(opts, "--worker-name") {
                    None => Err(ParseError::MissingOption(OptKey::WorkerName)),
                    Some(w) => match kind {
                        LeafKind::WkAdd => Ok(
                            WorkerSubcommand::Add {
                                template_ref: tref,
                                worker_name: w,
                                env: opt_all(opts, "--env"),
                                args: opt_all(opts, "--args"),
                            },
                        ),
                        LeafKind::WkInvoke | LeafKind::WkInvokeAndAwait => match (
                            opt_value(opts, "--function"),
                            opt_value(opts, "--parameters"),
                        ) {
                            (None, _) => Err(ParseError::MissingOption(OptKey::Function)),
                            (_, None) => Err(ParseError::MissingOption(OptKey::Parameters)),
                            (Some(f), Some(p)) => match kind {
                                LeafKind::WkInvoke => Ok(
                                    WorkerSubcommand::Invoke {
                                        template_ref: tref,
                                        worker_name: w,
                                        function: f,
                                        parameters: p,
                                    },
                                ),
                                _ => Ok(
                                    WorkerSubcommand::InvokeAndAwait {
                                        template_ref: tref,
                                        worker_name: w,
                                        function: f,
                                        parameters: p,
                                        use_stdio: has_flag(opts, "--use-stdio"),
                                    },
                                ),
                            },
                        },
                        LeafKind::WkDelete => Ok(
                            WorkerSubcommand::Delete { template_ref: tref, worker_name: w },
                        ),
                        LeafKind::WkGet => Ok(
                            WorkerSubcommand::Get { template_ref: tref, worker_name: w },
                        ),
                        LeafKind::WkInvocationKey => Ok(
                            WorkerSubcommand::InvocationKey { template_ref: tref, worker_name: w },
                        ),
                        LeafKind::WkConnect => Ok(
                            WorkerSubcommand::Connect { template_ref: tref, worker_name: w },
                        ),
                        LeafKind::WkInterrupt => Ok(
                            WorkerSubcommand::Interrupt { template_ref: tref, worker_name: w },
                        ),
                        _ => Ok(
                            WorkerSubcommand::SimulatedCrash { template_ref: tref, worker_name: w },
                        ),
                    },
                },
            },
        },
    }
}

/// The tier a `--min-tier` value names.
pub open spec fn spec_parse_tier(s: Seq<char>) -> Option<u8> {
    if s == "1"@ {
        Option::Some(1u8)
    } else if s == "2"@ {
        Option::Some(2u8)
    } else if s == "3"@ {
        Option::Some(3u8)
    } else {
        Option::None
    }
}

/// Parses a `--min-tier` value.
pub fn parse_tier(s: &String) -> (r: Option<u8>)
    ensures
        r == spec_parse_tier(s@),
{
    if str_eq(s, "1") {
        Some(1)
    } else if str_eq(s, "2") {
        Some(2)
    } else if str_eq(s, "3") {
        Some(3)
    } else {
        None
    }
}

/// The language a `--language` value names.
pub open spec fn spec_parse_language(s: Seq<char>) -> Option<GuestLanguage> {
    if s == "rust"@ {
        Option::Some(GuestLanguage::Rust)
    } else if s == "go"@ {
        Option::Some(GuestLanguage::Go)
    } else if s == "c"@ {
        Option::Some(GuestLanguage::C)
    } else if s == "js"@ || s == "javascript"@ {
        Option::Some(GuestLanguage::JavaScript)
    } else if s == "ts"@ || s == "typescript"@ {
        Option::Some(GuestLanguage::TypeScript)
    } else if s == "python"@ {
        Option::Some(GuestLanguage::Python)
    } else {
        Option::None
    }
}

/// Parses a `--language` value.
pub fn parse_language(s: &String) -> (r: Option<GuestLanguage>)
    ensures
        r == spec_parse_language(s@),
{
    if str_eq(s, "rust") {
        Some(GuestLanguage::Rust)
    } else if str_eq(s, "go") {
        Some(GuestLanguage::Go)
    } else if str_eq(s, "c") {
        Some(GuestLanguage::C)
    } else if str_eq(s, "js") || str_eq(s, "javascript") {
        Some(GuestLanguage::JavaScript)
    } else if str_eq(s, "ts") || str_eq(s, "typescript") {
        Some(GuestLanguage::TypeScript)
    } else if str_eq(s, "python") {
        Some(GuestLanguage::Python)
    } else {
        None
    }
}

/// The parsed command tree below the global options.
pub enum Command {
    Template(TemplateSubcommand),
    Worker(WorkerSubcommand),
    New { example: String, template_name: String, package_name: Option<String> },
    ListExamples { min_tier: Option<u8>, language: Option<GuestLanguage> },
}

/// The fully parsed invocation: global options resolved to their defaults,
/// and the typed command.
pub struct GolemCommand {
    pub format: Format,
    pub golem_url: Option<String>,
    pub verbosity: Verbosity,
    pub command: Command,
}

/// What the argument vector asks for: a run, or one of the universal
/// informational flags.
pub enum Parsed {
    Run(GolemCommand),
    Help,
    Version,
}

/// Builds the `new` leaf from its options.
pub open spec fn spec_new_leaf(opts: Seq<(String, Option<String>)>) -> Result<Command, ParseError> {
    match spec_first_unknown(LeafKind::NewProject, opts) {
        Option::Some(t) => Result::Err(ParseError::UnknownFlag(t)),
        Option::None => match (
            spec_opt_value(opts, "--example"@),
            spec_opt_value(opts, "--template-name"@),
        ) {
            (Option::None, _) => Result::Err(ParseError::MissingOption(OptKey::Example)),
            (_, Option::None) => Result::Err(ParseError::MissingOption(OptKey::TemplateName)),
            (Option::Some(e), Option::Some(n)) => Result::Ok(
                Command::New {
                    example: e,
                    template_name: n,
                    package_name: spec_opt_value(opts, "--package-name"@),
                },
            ),
        },
    }
}

/// Builds the `list-examples` leaf from its options.
pub open spec fn spec_list_examples_leaf(opts: Seq<(String, Option<String>)>) -> Result<
    Command,
    ParseError,
> {
    match spec_first_unknown(LeafKind::ListExamples, opts) {
        Option::Some(t) => Result::Err(ParseError::UnknownFlag(t)),
        Option::None => {
            let mt = spec_opt_value(opts, "--min-tier"@);
            let lg = spec_opt_value(opts, "--language"@);
            match mt {
                Option::Some(v) if spec_parse_tier(v@) is None => Result::Err(
                    ParseError::BadValue(v),
                ),
                _ => match lg {
                    Option::Some(v) if spec_parse_language(v@) is None => Result::Err(
                        ParseError::BadValue(v),
                    ),
                    _ => Result::Ok(
                        Command::ListExamples {
                            min_tier: match mt {
                                Option::Some(v) => spec_parse_tier(v@),
                                Option::None => Option::None,
                            },
                            language: match lg {
                                Option::Some(v) => spec_parse_language(v@),
                                Option::None => Option::None,
                            },
                        },
                    ),
                },
            }
        },
    }
}

/// Which leaf a `template` subcommand token names.
pub open spec fn spec_template_kind(t: String) -> Option<LeafKind> {
    if t@ == "add"@ {
        Option::Some(LeafKind::TplAdd)
    } else if t@ == "update"@ {
        Option::Some(LeafKind::TplUpdate)
    } else if t@ == "list"@ {
        Option::Some(LeafKind::TplList)
    } else if t@ == "get"@ {
        Option::Some(LeafKind::TplGet)
    } else {
        Option::None
    }
}

/// Which leaf a `worker` subcommand token names.
pub open spec fn spec_worker_kind(t: String) -> Option<LeafKind> {
    if t@ == "add"@ {
        Option::Some(LeafKind::WkAdd)
    } else if t@ == "delete"@ {
        Option::Some(LeafKind::WkDelete)
    } else if t@ == "get"@ {
        Option::Some(LeafKind::WkGet)
    } else if t@ == "list"@ {
        Option::Some(LeafKind::WkList)
    } else if t@ == "invoke"@ {
        Option::Some(LeafKind::WkInvoke)
    } else if t@ == "invoke-and-await"@ {
        Option::Some(LeafKind::WkInvokeAndAwait)
    } else if t@ == "invocation-key"@ {
        Option::Some(LeafKind::WkInvocationKey)
    } else if t@ == "connect"@ {
        Option::Some(LeafKind::WkConnect)
    } else if t@ == "interrupt"@ {
        Option::Some(LeafKind::WkInterrupt)
    } else if t@ == "simulated-crash"@ {
        Option::Some(LeafKind::WkSimulatedCrash)
    } else {
        Option::None
    }
}

/// Which leaf a `template` subcommand token names.
fn template_kind(t: &String) -> (r: Option<LeafKind>)
    ensures
        r == spec_template_kind(*t),
{
    if str_eq(t, "add") {
        Some(LeafKind::TplAdd)
    } else if str_eq(t, "update") {
        Some(LeafKind::TplUpdate)
    } else if str_eq(t, "list") {
        Some(LeafKind::TplList)
    } else if str_eq(t, "get") {
        Some(LeafKind::TplGet)
    } else {
        None
    }
}

/// Which leaf a `worker` subcommand token names.
fn worker_kind(t: &String) -> (r: Option<LeafKind>)
    ensures
        r == spec_worker_kind(*t),
{
    if str_eq(t, "add") {
        Some(LeafKind::WkAdd)
    } else if str_eq(t, "delete") {
        Some(LeafKind::WkDelete)
    } else if str_eq(t, "get") {
        Some(LeafKind::WkGet)
    } else if str_eq(t, "list") {
        Some(LeafKind::WkList)
    } else if str_eq(t, "invoke") {
        Some(LeafKind::WkInvoke)
    } else if str_eq(t, "invoke-and-await") {
        Some(LeafKind::WkInvokeAndAwait)
    } else if str_eq(t, "invocation-key") {
        Some(LeafKind::WkInvocationKey)
    } else if str_eq(t, "connect") {
        Some(LeafKind::WkConnect)
    } else if str_eq(t, "interrupt") {
        Some(LeafKind::WkInterrupt)
    } else if str_eq(t, "simulated-crash") {
        Some(LeafKind::WkSimulatedCrash)
    } else {
        None
    }
}

/// Parses the non-global tokens as the command tree: a top-level noun, its
/// subcommand where the noun has one, and the leaf's options.
pub open spec fn spec_command(rest: Seq<String>) -> Result<Command, ParseError> {
    if rest.len() == 0 {
        Result::Err(ParseError::MissingCommand)
    } else {
        let t = rest.first();
        if t@ == "template"@ {
            if rest.len() < 2 {
                Result::Err(ParseError::MissingCommand)
            } else {
                match spec_template_kind(rest[1]) {
                    Option::None => Result::Err(ParseError::UnknownCommand(rest[1])),
                    Option::Some(kind) => match spec_parse_opts(rest.skip(2)) {
                        Result::Err(e) => Result::Err(e),
                        Result::Ok(opts) => match spec_template_leaf(kind, opts) {
                            Result::Err(e) => Result::Err(e),
                            Result::Ok(s) => Result::Ok(Command::Template(s)),
                        },
                    },
                }
            }
        } else if t@ == "worker"@ {
            if rest.len() < 2 {
                Result::Err(ParseError::MissingCommand)
            } else {
                match spec_worker_kind(rest[1]) {
                    Option::None => Result::Err(ParseError::UnknownCommand(rest[1])),
                    Option::Some(kind) => match spec_parse_opts(rest.skip(2)) {
                        Result::Err(e) => Result::Err(e),
                        Result::Ok(opts) => if kind is WkAdd {
                            spec_worker_add_command(opts)
                        } else {
                            match spec_worker_leaf(kind, opts) {
                                Result::Err(e) => Result::Err(e),
                                Result::Ok(s) => Result::Ok(Command::Worker(s)),
                            }
                        },
                    },
                }
            }
        } else if t@ == "new"@ {
            match spec_parse_opts(rest.drop_first()) {
                Result::Err(e) => Result::Err(e),
                Result::Ok(opts) => spec_new_leaf(opts),
            }
        } else if t@ == "list-examples"@ {
            match spec_parse_opts(rest.drop_first()) {
                Result::Err(e) => Result::Err(e),
                Result::Ok(opts) => spec_list_examples_leaf(opts),
            }
        } else {
            Result::Err(ParseError::UnknownCommand(t))
        }
    }
}

/// What parsing `worker add` must yield, stated without building the
/// vectors of repeated flags.
pub open spec fn spec_worker_add_ok(opts: Seq<(String, Option<String>)>, c: Command) -> bool {
    match spec_worker_common(LeafKind::WkAdd, opts) {
        Result::Err(_) => false,
        Result::Ok(tw) => c matches Command::Worker(
            WorkerSubcommand::Add { template_ref, worker_name, env, args },
        ) && template_ref == tw.0 && worker_name == tw.1 && env@ == spec_opt_all(opts, "--env"@)
            && args@ == spec_opt_all(opts, "--args"@),
    }
}

/// The `worker add` result at the command level: its error, where parsing
/// fails; the shape `spec_worker_add_ok` pins is stated at the call site.
pub open spec fn spec_worker_add_command(opts: Seq<(String, Option<String>)>) -> Result<
    Command,
    ParseError,
> {
    match spec_worker_common(LeafKind::WkAdd, opts) {
        Result::Err(e) => Result::Err(e),
        Result::Ok(_) => Result::Ok(arbitrary()),
    }
}

/// Whether a parsed command is a `worker add`, whose repeated flags are
/// stated relationally.
pub open spec fn spec_is_worker_add(c: Command) -> bool {
    c matches Command::Worker(WorkerSubcommand::Add { .. })
}

/// Parses the non-global tokens as the command tree.
fn parse_command(rest: &Vec<String>) -> (r: Result<Command, ParseError>)
    ensures
        !(r matches Result::Ok(c) && spec_is_worker_add(c)) ==> r == spec_command(rest@),
        r matches Result::Ok(c) ==> (spec_is_worker_add(c) ==> rest@.len() >= 2 && (
        spec_parse_opts(rest@.skip(2)) matches Result::Ok(opts) && spec_worker_add_ok(opts, c))),
        r is Ok <==> spec_command(rest@) is Ok,
{
    if rest.len() == 0 {
        return Err(ParseError::MissingCommand);
    }
    let t = &rest[0];
    proof {
        assert(rest@.first() == rest@[0]);
        assert(rest@.drop_first() =~= rest@.skip(1));
    }
    if str_eq(t, "template") {
        if rest.len() < 2 {
            Err(ParseError::MissingCommand)
        } else {
            match template_kind(&rest[1]) {
                None => Err(ParseError::UnknownCommand(rest[1].clone())),
                Some(kind) => match parse_opts(rest, 2) {
                    Err(e) => Err(e),
                    Ok(opts) => match template_leaf(kind, &opts) {
                        Err(e) => Err(e),
                        Ok(s) => Ok(Command::Template(s)),
                    },
                },
            }
        }
    } else if str_eq(t, "worker") {
        if rest.len() < 2 {
            Err(ParseError::MissingCommand)
        } else {
            match worker_kind(&rest[1]) {
                None => Err(ParseError::UnknownCommand(rest[1].clone())),
                Some(kind) => match parse_opts(rest, 2) {
                    Err(e) => Err(e),
                    Ok(opts) => match worker_leaf(kind, &opts) {
                        Err(e) => Err(e),
                        Ok(s) => Ok(Command::Worker(s)),
                    },
                },
            }
        }
    } else if str_eq(t, "new") {
        match parse_opts(rest, 1) {
            Err(e) => Err(e),
            Ok(opts) => new_leaf(&opts),
        }
    } else if str_eq(t, "list-examples") {
        match parse_opts(rest, 1) {
            Err(e) => Err(e),
            Ok(opts) => list_examples_leaf(&opts),
        }
    } else {
        Err(ParseError::UnknownCommand(t.clone()))
    }
}

/// Builds the `new` leaf from its options.
fn new_leaf(opts: &Vec<(String, Option<String>)>) -> (r: Result<Command, ParseError>)
    ensures
        r == spec_new_leaf(opts@),
{
    match first_unknown(LeafKind::NewProject, opts) {
        Some(t) => Err(ParseError::UnknownFlag(t)),
        None => match (opt_value(opts, "--example"), opt_value(opts, "--template-name")) {
            (None, _) => Err(ParseError::MissingOption(OptKey::Example)),
            (_, None) => Err(ParseError::MissingOption(OptKey::TemplateName)),
            (Some(e), Some(n)) => Ok(
                Command::New {
                    example: e,
                    template_name: n,
                    package_name: opt_value(opts, "--package-name"),
                },
            ),
        },
    }
}

/// Builds the `list-examples` leaf from its options.
fn list_examples_leaf(opts: &Vec<(String, Option<String>)>) -> (r: Result<Command, ParseError>)
    ensures
        r == spec_list_examples_leaf(opts@),
{
    match first_unknown(LeafKind::ListExamples, opts) {
        Some(t) => Err(ParseError::UnknownFlag(t)),
        None => {
            let mt = opt_value(opts, "--min-tier");
            let lg = opt_value(opts, "--language");
            let min_tier: Option<u8> = match &mt {
                Some(v) => match parse_tier(v) {
                    None => {
                        return Err(ParseError::BadValue(v.clone()));
                    },
                    Some(tier) => Some(tier),
                },
                None => None,
            };
            let language: Option<GuestLanguage> = match &lg {
                Some(v) => match parse_language(v) {
                    None => {
                        return Err(ParseError::BadValue(v.clone()));
                    },
                    Some(l) => Some(l),
                },
                None => None,
            };
            Ok(Command::ListExamples { min_tier, language })
        },
    }
}

/// The flag an option key names.
pub open spec fn spec_opt_key_name(k: OptKey) -> Seq<char> {
    match k {
        OptKey::TemplateId => "--template-id"@,
        OptKey::TemplateName => "--template-name"@,
        OptKey::TemplateFile => "--template-file"@,
        OptKey::WorkerName => "--worker-name"@,
        OptKey::Function => "--function"@,
        OptKey::Parameters => "--parameters"@,
        OptKey::Example => "--example"@,
        OptKey::PackageName => "--package-name"@,
        OptKey::MinTier => "--min-tier"@,
        OptKey::Language => "--language"@,
    }
}

/// Appends the flag an option key names.
fn push_opt_key(out: &mut Vec<char>, k: OptKey)
    ensures
        final(out)@ == old(out)@ + spec_opt_key_name(k),
{
    let lit = match k {
        OptKey::TemplateId => "--template-id",
        OptKey::TemplateName => "--template-name",
        OptKey::TemplateFile => "--template-file",
        OptKey::WorkerName => "--worker-name",
        OptKey::Function => "--function",
        OptKey::Parameters => "--parameters",
        OptKey::Example => "--example",
        OptKey::PackageName => "--package-name",
        OptKey::MinTier => "--min-tier",
        OptKey::Language => "--language",
    };
    crate::text::push_chars(out, lit);
}

/// The stderr diagnostic of a parse error.
pub open spec fn spec_parse_error_message(e: ParseError) -> Seq<char> {
    match e {
        ParseError::MissingCommand => "missing subcommand"@,
        ParseError::UnknownCommand(t) => "unknown subcommand: "@ + t@,
        ParseError::UnknownFlag(t) => "unknown flag: "@ + t@,
        ParseError::UnexpectedArgument(t) => "unexpected argument: "@ + t@,
        ParseError::MissingValue(t) => "flag needs a value: "@ + t@,
        ParseError::BadValue(t) => "bad value: "@ + t@,
        ParseError::DuplicateFlag(t) => "flag given twice: "@ + t@,
        ParseError::MissingOption(k) => "missing required option: "@ + spec_opt_key_name(k),
        ParseError::ConflictingOptions(a, b) => "conflicting options: "@ + spec_opt_key_name(a)
            + " and "@ + spec_opt_key_name(b),
    }
}

/// Formats a parse error for stderr.
pub fn parse_error_message(e: &ParseError) -> (r: String)
    ensures
        r@ == spec_parse_error_message(*e),
{
    let mut out: Vec<char> = Vec::new();
    match e {
        ParseError::MissingCommand => crate::text::push_chars(&mut out, "missing subcommand"),
        ParseError::UnknownCommand(t) => {
            crate::text::push_chars(&mut out, "unknown subcommand: ");
            crate::text::push_string(&mut out, t);
        },
        ParseError::UnknownFlag(t) => {
            crate::text::push_chars(&mut out, "unknown flag: ");
            crate::text::push_string(&mut out, t);
        },
        ParseError::UnexpectedArgument(t) => {
            crate::text::push_chars(&mut out, "unexpected argument: ");
            crate::text::push_string(&mut out, t);
        },
        ParseError::MissingValue(t) => {
            crate::text::push_chars(&mut out, "flag needs a value: ");
            crate::text::push_string(&mut out, t);
        },
        ParseError::BadValue(t) => {
            crate::text::push_chars(&mut out, "bad value: ");
            crate::text::push_string(&mut out, t);
        },
        ParseError::DuplicateFlag(t) => {
            crate::text::push_chars(&mut out, "flag given twice: ");
            crate::text::push_string(&mut out, t);
        },
        ParseError::MissingOption(k) => {
            crate::text::push_chars(&mut out, "missing required option: ");
            push_opt_key(&mut out, *k);
        },
        ParseError::ConflictingOptions(a, b) => {
            crate::text::push_chars(&mut out, "conflicting options: ");
            push_opt_key(&mut out, *a);
            crate::text::push_chars(&mut out, " and ");
            push_opt_key(&mut out, *b);
        },
    }
    crate::text::chars_to_string(&out)
}

/// Parsing is deterministic: the outcome is a function of the argument
/// vector alone, so re-running with an identical vector yields the same
/// global options, the same remaining tokens and the same command tree —
/// and hence, through the request planners, identical requests to the
/// control-plane. No state outside the arguments enters the result.
pub proof fn lemma_parsing_deterministic(a: Seq<String>, b: Seq<String>)
    requires
        a == b,
    ensures
        spec_scan(a) == spec_scan(b),
        spec_command(a) == spec_command(b),
{
}

/// Parses the whole argument vector: global flags anywhere, then the
/// command tree. Help and version short-circuit; every other outcome is a
/// typed command, with the format defaulted to YAML, or a parse error.
pub fn parse_args(args: &Vec<String>) -> (r: Result<Parsed, ParseError>)
    ensures
        ({
            let scan = spec_scan(args@);
            match r {
                Result::Err(e) => (scan matches Result::Err(e2) && e2 == e) || (
                scan matches Result::Ok(p) && !p.0.help && !p.0.version && spec_command(p.1)
                    == Result::<Command, ParseError>::Err(e)),
                Result::Ok(parsed) => scan matches Result::Ok(p) && (match parsed {
                    Parsed::Help => p.0.help,
                    Parsed::Version => !p.0.help && p.0.version,
                    Parsed::Run(gc) => {
                        &&& !p.0.help && !p.0.version
                        &&& gc.format == (match p.0.format {
                            Option::Some(f) => f,
                            Option::None => Format::Yaml,
                        })
                        &&& gc.golem_url == p.0.url
                        &&& gc.verbosity == spec_verbosity(p.0.verbose, p.0.quiet)
                        &&& (!spec_is_worker_add(gc.command) ==> spec_command(p.1) == Result::<
                            Command,
                            ParseError,
                        >::Ok(gc.command))
                        &&& (spec_is_worker_add(gc.command) ==> p.1.len() >= 2 && (spec_parse_opts(
                            p.1.skip(2),
                        ) matches Result::Ok(opts) && spec_worker_add_ok(opts, gc.command)))
                    },
                }),
            }
        }),
{
    match scan_globals(args, 0) {
        Err(e) => {
            proof {
                assert(args@.skip(0) =~= args@);
            }
            Err(e)
        },
        Ok((g, rest)) => {
            proof {
                assert(args@.skip(0) =~= args@);
            }
            if g.help {
                Ok(Parsed::Help)
            } else if g.version {
                Ok(Parsed::Version)
            } else {
                match parse_command(&rest) {
                    Err(e) => Err(e),
                    Ok(command) => {
                        let format = match g.format {
                            Some(f) => f,
                            None => Format::Yaml,
                        };
                        let verbosity = verbosity_of(g.verbose, g.quiet);
                        Ok(
                            Parsed::Run(
                                GolemCommand { format, golem_url: g.url, verbosity, command },
                            ),
                        )
                    },
                }
            }
        },
    }
}

} // verus!

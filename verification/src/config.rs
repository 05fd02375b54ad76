//! Resolution of process configuration: the control-plane base URL and the
//! TLS-relaxation switch, each resolved from flag, environment and default.

use vstd::prelude::*;
use vstd::string::StrSliceExecFns;
use vstd::string::StringExecFns;
use crate::model::GolemError;
use crate::model::Verbosity;
use crate::text::str_eq;

verus! {

/// The base URL when neither the flag nor the environment supplies one.
pub open spec fn spec_default_base_url() -> Seq<char> {
    "http://localhost:9881"@
}

/// What the base URL resolves to: the flag wins, then the environment
/// variable, then the built-in default.
pub open spec fn spec_resolve_base_url(flag: Option<Seq<char>>, env: Option<Seq<char>>) -> Seq<
    char,
> {
    match flag {
        Option::Some(f) => f,
        Option::None => match env {
            Option::Some(e) => e,
            Option::None => spec_default_base_url(),
        },
    }
}

/// Resolves the control-plane base URL from the `--golem-url` flag value and
/// the `GOLEM_BASE_URL` environment value, falling back to
/// `http://localhost:9881`.
pub fn resolve_base_url(flag: Option<String>, env: Option<String>) -> (r: String)
    ensures
        r@ == spec_resolve_base_url(
            match flag {
                Option::Some(f) => Option::Some(f@),
                Option::None => Option::None,
            },
            match env {
                Option::Some(e) => Option::Some(e@),
                Option::None => Option::None,
            },
        ),
{
    match flag {
        Option::Some(f) => f,
        Option::None => match env {
            Option::Some(e) => e,
            Option::None => String::from_str("http://localhost:9881"),
        },
    }
}

/// Whether TLS-certificate verification is disabled, given the value of the
/// `GOLEM_ALLOW_INSECURE` environment variable: active if and only if the
/// variable is present and its value is not literally `false`.
pub open spec fn spec_allow_insecure(env: Option<Seq<char>>) -> bool {
    match env {
        Option::Some(v) => v != "false"@,
        Option::None => false,
    }
}

/// Resolves the TLS-relaxation switch from the `GOLEM_ALLOW_INSECURE`
/// environment value.
pub fn allow_insecure_of(env: &Option<String>) -> (r: bool)
    ensures
        r == spec_allow_insecure(
            match env {
                Option::Some(v) => Option::Some(v@),
                Option::None => Option::None,
            },
        ),
{
    match env {
        Option::Some(v) => !str_eq(v, "false"),
        Option::None => false,
    }
}

/// Whether a string begins with the given prefix.
pub open spec fn spec_starts_with(s: Seq<char>, prefix: Seq<char>) -> bool {
    s.len() >= prefix.len() && s.take(prefix.len() as int) == prefix
}

/// True iff `s` begins with `prefix`.
pub fn starts_with(s: &String, prefix: &str) -> (r: bool)
    ensures
        r == spec_starts_with(s@, prefix@),
{
    let sl = s.as_str();
    let n = sl.unicode_len();
    let m = prefix.unicode_len();
    if n < m {
        assert(!spec_starts_with(s@, prefix@));
        return false;
    }
    let mut i: usize = 0;
    while i < m
        invariant
            m <= n,
            n == s@.len(),
            m == prefix@.len(),
            i <= m,
            sl@ == s@,
            forall|j: int| 0 <= j < i ==> s@[j] == prefix@[j],
        decreases m - i,
    {
        if sl.get_char(i) != prefix.get_char(i) {
            assert(s@.take(prefix@.len() as int)[i as int] != prefix@[i as int]);
            return false;
        }
        i = i + 1;
    }
    assert(s@.take(prefix@.len() as int) =~= prefix@);
    true
}

/// A base URL is acceptable when its scheme is `http` or `https`: it begins
/// with `http://` or `https://` and more follows the scheme.
pub open spec fn spec_valid_base_url(s: Seq<char>) -> bool {
    (spec_starts_with(s, "http://"@) && s.len() > "http://"@.len()) || (spec_starts_with(
        s,
        "https://"@,
    ) && s.len() > "https://"@.len())
}

/// Validates the resolved base URL; a URL without an `http` or `https`
/// scheme is fatal.
pub fn validate_base_url(url: &String) -> (r: Result<(), GolemError>)
    ensures
        r is Ok <==> spec_valid_base_url(url@),
        r matches Err(e) ==> e matches GolemError::InvalidConfig(m) && m@ == url@,
{
    let n = url.as_str().unicode_len();
    let http = starts_with(url, "http://");
    let https = starts_with(url, "https://");
    proof {
        reveal_strlit("http://");
        reveal_strlit("https://");
    }
    if (http && n > 7) || (https && n > 8) {
        Ok(())
    } else {
        Err(GolemError::InvalidConfig(url.clone()))
    }
}

/// The log level the verbosity flags choose: `-q` silences logging, and
/// each `-v` raises the level from the `Error` default through `Warn`,
/// `Info` and `Debug` up to `Trace`.
pub open spec fn spec_verbosity(verbose_count: u8, quiet: bool) -> Verbosity {
    if quiet {
        Verbosity::Off
    } else if verbose_count == 0 {
        Verbosity::Error
    } else if verbose_count == 1 {
        Verbosity::Warn
    } else if verbose_count == 2 {
        Verbosity::Info
    } else if verbose_count == 3 {
        Verbosity::Debug
    } else {
        Verbosity::Trace
    }
}

/// Resolves the log level from the verbosity flags.
pub fn verbosity_of(verbose_count: u8, quiet: bool) -> (r: Verbosity)
    ensures
        r == spec_verbosity(verbose_count, quiet),
{
    if quiet {
        Verbosity::Off
    } else if verbose_count == 0 {
        Verbosity::Error
    } else if verbose_count == 1 {
        Verbosity::Warn
    } else if verbose_count == 2 {
        Verbosity::Info
    } else if verbose_count == 3 {
        Verbosity::Debug
    } else {
        Verbosity::Trace
    }
}

} // verus!

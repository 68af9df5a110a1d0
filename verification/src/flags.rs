//! Flag Resolver: normalizes the raw boolean-ish attach options (tty, stdin)
//! into a single attach-mode token.
//!
//! Each option arrives in one of three states: absent, present without a
//! value, or present with an explicit value. Absent and value-less inputs
//! both count as `true` — deliberately inverted from `kubectl`'s own default.

use vstd::prelude::*;

verus! {

/// One raw boolean-ish command-line option, as handed over by the shell's
/// argument parser: absent, present with no value, or present with an
/// explicit textual value.
#[derive(Clone, Debug)]
pub enum FlagInput {
    Absent,
    PresentNoValue,
    PresentWithValue(String),
}

/// The resolved attach mode: one token per combination of the two effective
/// booleans (tty, stdin).
#[derive(Clone, Copy, Debug, PartialEq, Eq, Structural)]
pub enum AttachMode {
    /// tty and stdin both attached.
    InteractiveTty,
    /// tty attached, stdin not.
    TtyOnly,
    /// stdin attached, tty not.
    StdinOnly,
    /// Neither attached; the token is empty and is omitted from invocations.
    NoAttach,
}

/// What a textual boolean value parses to: only the exact words `true` and
/// `false` are accepted.
pub open spec fn spec_parse_bool(s: Seq<char>) -> Option<bool> {
    if s == "true"@ {
        Some(true)
    } else if s == "false"@ {
        Some(false)
    } else {
        None
    }
}

/// The message reported for a malformed boolean value.
pub open spec fn invalid_bool_msg() -> Seq<char> {
    "provided string was not `true` or `false`"@
}

/// Parses a textual boolean: exactly `true` or `false`, anything else is
/// rejected.
pub fn parse_bool(s: &str) -> (r: Option<bool>)
    ensures
        r == spec_parse_bool(s@),
{
    let owned: String = s.to_owned();
    let t: String = "true".to_owned();
    let f: String = "false".to_owned();
    if owned == t {
        Some(true)
    } else if owned == f {
        Some(false)
    } else {
        None
    }
}

/// Validates that a string is a well-formed boolean value, reporting the
/// standard parse-failure message otherwise.
pub fn valid_bool(s: String) -> (r: Result<(), String>)
    ensures
        r is Ok <==> spec_parse_bool(s@) is Some,
        r matches Err(m) ==> m@ == invalid_bool_msg(),
{
    match parse_bool(s.as_str()) {
        Some(_) => Ok(()),
        None => Err("provided string was not `true` or `false`".to_owned()),
    }
}

/// The effective boolean of one raw option: absent and value-less inputs
/// count as `true`; an explicit value is parsed, and a malformed one yields
/// `None` (a validation failure).
pub open spec fn effective_flag(f: FlagInput) -> Option<bool> {
    match f {
        FlagInput::Absent => Some(true),
        FlagInput::PresentNoValue => Some(true),
        FlagInput::PresentWithValue(s) => spec_parse_bool(s@),
    }
}

/// Resolves one raw option into its effective boolean, or `None` when the
/// explicit value is malformed.
pub fn resolve_flag(f: &FlagInput) -> (r: Option<bool>)
    ensures
        r == effective_flag(*f),
{
    match f {
        FlagInput::Absent => Some(true),
        FlagInput::PresentNoValue => Some(true),
        FlagInput::PresentWithValue(s) => parse_bool(s.as_str()),
    }
}

/// The attach mode for a pair of effective booleans.
pub open spec fn attach_mode_of(tty: bool, stdin: bool) -> AttachMode {
    if tty && stdin {
        AttachMode::InteractiveTty
    } else if tty {
        AttachMode::TtyOnly
    } else if stdin {
        AttachMode::StdinOnly
    } else {
        AttachMode::NoAttach
    }
}

/// The attach mode produced by the resolver for a pair of raw options, or
/// `None` when either explicit value is malformed.
pub open spec fn resolved_mode(tty: FlagInput, stdin: FlagInput) -> Option<AttachMode> {
    match (effective_flag(tty), effective_flag(stdin)) {
        (Some(t), Some(s)) => Some(attach_mode_of(t, s)),
        _ => None,
    }
}

/// Resolves both raw attach options into one attach mode, or `None` when
/// either explicit value is malformed.
pub fn resolve_attach_mode(tty: &FlagInput, stdin: &FlagInput) -> (r: Option<AttachMode>)
    ensures
        r == resolved_mode(*tty, *stdin),
{
    let t = match resolve_flag(tty) {
        Some(b) => b,
        None => {
            return None;
        },
    };
    let s = match resolve_flag(stdin) {
        Some(b) => b,
        None => {
            return None;
        },
    };
    if t && s {
        Some(AttachMode::InteractiveTty)
    } else if t {
        Some(AttachMode::TtyOnly)
    } else if s {
        Some(AttachMode::StdinOnly)
    } else {
        Some(AttachMode::NoAttach)
    }
}

/// The invocation token of an attach mode; empty for [`AttachMode::NoAttach`].
pub open spec fn attach_token_spec(m: AttachMode) -> Seq<char> {
    match m {
        AttachMode::InteractiveTty => "-it"@,
        AttachMode::TtyOnly => "-t"@,
        AttachMode::StdinOnly => "-i"@,
        AttachMode::NoAttach => ""@,
    }
}

/// Returns the invocation token of an attach mode.
pub fn attach_token(m: AttachMode) -> (t: String)
    ensures
        t@ == attach_token_spec(m),
{
    match m {
        AttachMode::InteractiveTty => "-it".to_owned(),
        AttachMode::TtyOnly => "-t".to_owned(),
        AttachMode::StdinOnly => "-i".to_owned(),
        AttachMode::NoAttach => "".to_owned(),
    }
}

/// Law: the resolver follows the attach-mode table exactly. Raw options
/// resolve if and only if both effective booleans exist; the mode is then the
/// table entry for that pair, and two entirely absent options yield the
/// combined interactive-tty mode (the default-true invariant).
pub proof fn lemma_flag_resolution_table(tty: FlagInput, stdin: FlagInput)
    ensures
        resolved_mode(FlagInput::Absent, FlagInput::Absent) == Some(AttachMode::InteractiveTty),
        resolved_mode(tty, stdin) is Some <==> effective_flag(tty) is Some && effective_flag(
            stdin,
        ) is Some,
        forall|t: bool, s: bool|
            effective_flag(tty) == Some(t) && effective_flag(stdin) == Some(s) ==> resolved_mode(
                tty,
                stdin,
            ) == Some(attach_mode_of(t, s)),
        attach_mode_of(true, true) == AttachMode::InteractiveTty,
        attach_mode_of(true, false) == AttachMode::TtyOnly,
        attach_mode_of(false, true) == AttachMode::StdinOnly,
        attach_mode_of(false, false) == AttachMode::NoAttach,
{
}

} // verus!

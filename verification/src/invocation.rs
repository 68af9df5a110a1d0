//! Invocation Builder: assembles the ordered argument vector of the external
//! `kubectl` launch, for either execution strategy.
//!
//! The base (inline) form is the wrapped binary followed by its arguments in
//! a fixed order; the spawned-terminal form prefixes the terminal launcher's
//! own words onto that same list. Remote command words are passed through as
//! discrete tokens, never concatenated or re-quoted.

use vstd::prelude::*;

use crate::flags::{attach_token, attach_token_spec, AttachMode};
use vstd::string::StrSliceExecFns;

verus! {

/// One external process launch: an ordered argument vector whose first
/// element is the program to run.
#[derive(Clone, Debug)]
pub struct Invocation {
    pub argv: Vec<String>,
}

impl View for Invocation {
    type V = Seq<Seq<char>>;

    open spec fn view(&self) -> Seq<Seq<char>> {
        self.argv.deep_view()
    }
}

/// The characters on which a terminal-launcher string is split into words.
pub open spec fn is_space(c: char) -> bool {
    c == ' ' || c == '\t' || c == '\n' || c == '\r'
}

/// The words of `s` from position `i` on, split on whitespace, appended to
/// `acc`; `start` marks the beginning of the word currently being scanned
/// (no word is open when `start == i`).
pub open spec fn split_words_from(
    s: Seq<char>,
    i: int,
    start: int,
    acc: Seq<Seq<char>>,
) -> Seq<Seq<char>>
    decreases s.len() - i,
{
    if i < 0 || i >= s.len() {
        if start < i {
            acc.push(s.subrange(start, i))
        } else {
            acc
        }
    } else if is_space(s[i]) {
        if start < i {
            split_words_from(s, i + 1, i + 1, acc.push(s.subrange(start, i)))
        } else {
            split_words_from(s, i + 1, i + 1, acc)
        }
    } else {
        split_words_from(s, i + 1, start, acc)
    }
}

/// The whitespace-separated words of `s`, in order, without empty words.
pub open spec fn split_words(s: Seq<char>) -> Seq<Seq<char>> {
    split_words_from(s, 0, 0, Seq::empty())
}

/// Splits a string into its whitespace-separated words.
pub fn split_whitespace_words(s: &str) -> (words: Vec<String>)
    ensures
        words.deep_view() == split_words(s@),
{
    let n = s.unicode_len();
    let mut words: Vec<String> = Vec::new();
    assert(words.deep_view() =~= Seq::<Seq<char>>::empty());
    let mut start: usize = 0;
    let mut i: usize = 0;
    while i < n
        invariant
            n == s@.len(),
            start <= i <= n,
            split_words(s@) == split_words_from(s@, i as int, start as int, words.deep_view()),
        decreases n - i,
    {
        let c = s.get_char(i);
        if c == ' ' || c == '\t' || c == '\n' || c == '\r' {
            if start < i {
                let w: String = s.substring_char(start, i).to_owned();
                let ghost prev = words.deep_view();
                words.push(w);
                assert(words.deep_view() =~= prev.push(s@.subrange(start as int, i as int)));
            }
            start = i + 1;
        }
        i = i + 1;
    }
    if start < n {
        let w: String = s.substring_char(start, n).to_owned();
        let ghost prev = words.deep_view();
        words.push(w);
        assert(words.deep_view() =~= prev.push(s@.subrange(start as int, n as int)));
    }
    words
}

/// The fixed part of the base argument list: everything from the namespace
/// flag up to and including the literal `--` separator. The attach token is
/// omitted entirely when the mode's token is empty.
pub open spec fn base_fixed_spec(
    ns: Seq<char>,
    ctx: Seq<char>,
    mode: AttachMode,
    pod: Seq<char>,
    cont: Option<Seq<char>>,
) -> Seq<Seq<char>> {
    seq!["--namespace"@, ns, "--context"@, ctx, "exec"@] + (if mode is NoAttach {
        Seq::<Seq<char>>::empty()
    } else {
        seq![attach_token_spec(mode)]
    }) + seq![pod] + (match cont {
        Some(c) => seq!["-c"@, c],
        None => Seq::<Seq<char>>::empty(),
    }) + seq!["--"@]
}

/// The base argument list: the fixed part followed by every remote command
/// word, in the order given.
pub open spec fn base_args_spec(
    ns: Seq<char>,
    ctx: Seq<char>,
    mode: AttachMode,
    pod: Seq<char>,
    cont: Option<Seq<char>>,
    cmd: Seq<Seq<char>>,
) -> Seq<Seq<char>> {
    base_fixed_spec(ns, ctx, mode, pod, cont) + cmd
}

/// The inline-strategy argument vector: the wrapped binary, then the base
/// argument list.
pub open spec fn inline_argv_spec(
    ns: Seq<char>,
    ctx: Seq<char>,
    mode: AttachMode,
    pod: Seq<char>,
    cont: Option<Seq<char>>,
    cmd: Seq<Seq<char>>,
) -> Seq<Seq<char>> {
    seq!["kubectl"@] + base_args_spec(ns, ctx, mode, pod, cont, cmd)
}

/// The spawned-terminal argument vector: the launcher's own words, then the
/// whole inline form as trailing arguments.
pub open spec fn terminal_argv_spec(
    launcher: Seq<char>,
    ns: Seq<char>,
    ctx: Seq<char>,
    mode: AttachMode,
    pod: Seq<char>,
    cont: Option<Seq<char>>,
    cmd: Seq<Seq<char>>,
) -> Seq<Seq<char>> {
    split_words(launcher) + inline_argv_spec(ns, ctx, mode, pod, cont, cmd)
}

/// Builds the inline-strategy invocation for one target object.
pub fn build_inline_invocation(
    ns: &str,
    ctx: &str,
    mode: AttachMode,
    pod: &str,
    cont: &Option<String>,
    cmd: &Vec<String>,
) -> (inv: Invocation)
    ensures
        inv@ == inline_argv_spec(ns@, ctx@, mode, pod@, cont.deep_view(), cmd.deep_view()),
{
    let mut argv: Vec<String> = Vec::new();
    argv.push("kubectl".to_owned());
    argv.push("--namespace".to_owned());
    argv.push(ns.to_owned());
    argv.push("--context".to_owned());
    argv.push(ctx.to_owned());
    argv.push("exec".to_owned());
    match mode {
        AttachMode::NoAttach => {},
        _ => {
            argv.push(attach_token(mode));
        },
    }
    argv.push(pod.to_owned());
    match cont {
        Some(c) => {
            argv.push("-c".to_owned());
            argv.push(c.clone());
        },
        None => {},
    }
    argv.push("--".to_owned());
    assert(argv.deep_view() =~= seq!["kubectl"@] + base_fixed_spec(
        ns@,
        ctx@,
        mode,
        pod@,
        cont.deep_view(),
    ));
    let ghost prefix = argv.deep_view();
    let mut k: usize = 0;
    while k < cmd.len()
        invariant
            k <= cmd.len(),
            argv.deep_view() == prefix + cmd.deep_view().subrange(0, k as int),
        decreases cmd.len() - k,
    {
        let ghost prev = argv.deep_view();
        argv.push(cmd[k].clone());
        assert(argv.deep_view() =~= prev.push(cmd.deep_view()[k as int]));
        assert(argv.deep_view() =~= prefix + cmd.deep_view().subrange(0, k + 1));
        k = k + 1;
    }
    assert(argv.deep_view() =~= inline_argv_spec(
        ns@,
        ctx@,
        mode,
        pod@,
        cont.deep_view(),
        cmd.deep_view(),
    ));
    Invocation { argv }
}

/// Builds the spawned-terminal invocation for one target object: the given
/// launcher string is split on whitespace into the leading words.
pub fn build_terminal_invocation(
    launcher: &str,
    ns: &str,
    ctx: &str,
    mode: AttachMode,
    pod: &str,
    cont: &Option<String>,
    cmd: &Vec<String>,
) -> (inv: Invocation)
    ensures
        inv@ == terminal_argv_spec(
            launcher@,
            ns@,
            ctx@,
            mode,
            pod@,
            cont.deep_view(),
            cmd.deep_view(),
        ),
{
    let mut argv = split_whitespace_words(launcher);
    let mut tail = build_inline_invocation(ns, ctx, mode, pod, cont, cmd);
    let ghost words = argv.deep_view();
    let ghost tail_view = tail@;
    argv.append(&mut tail.argv);
    assert(argv.deep_view() =~= words + tail_view);
    Invocation { argv }
}

/// The terminal-launcher string that the spawned-terminal strategy uses: the
/// per-call value if one was given, otherwise the configured default,
/// otherwise the fixed platform default `xterm -e`.
pub open spec fn launcher_spec(
    term_value: Option<Seq<char>>,
    default_terminal: Option<Seq<char>>,
) -> Seq<char> {
    match term_value {
        Some(t) => t,
        None => match default_terminal {
            Some(d) => d,
            None => "xterm -e"@,
        },
    }
}

/// Chooses the terminal-launcher string per [`launcher_spec`].
pub fn choose_launcher(term_value: &Option<String>, default_terminal: &Option<String>) -> (l:
    String)
    ensures
        l@ == launcher_spec(term_value.deep_view(), default_terminal.deep_view()),
{
    match term_value {
        Some(t) => t.clone(),
        None => match default_terminal {
            Some(d) => d.clone(),
            None => "xterm -e".to_owned(),
        },
    }
}

/// Law: the Invocation Builder is deterministic — any two argument vectors
/// that satisfy the builder's contract for the same inputs are identical.
pub proof fn lemma_builder_deterministic(
    a: Seq<Seq<char>>,
    b: Seq<Seq<char>>,
    ns: Seq<char>,
    ctx: Seq<char>,
    mode: AttachMode,
    pod: Seq<char>,
    cont: Option<Seq<char>>,
    cmd: Seq<Seq<char>>,
)
    requires
        a == inline_argv_spec(ns, ctx, mode, pod, cont, cmd),
        b == inline_argv_spec(ns, ctx, mode, pod, cont, cmd),
    ensures
        a == b,
{
}

/// Law: remote command words are never reordered, merged or re-quoted — in
/// both built forms they appear verbatim, in the order given, as the final
/// arguments of the vector.
pub proof fn lemma_command_words_preserved(
    launcher: Seq<char>,
    ns: Seq<char>,
    ctx: Seq<char>,
    mode: AttachMode,
    pod: Seq<char>,
    cont: Option<Seq<char>>,
    cmd: Seq<Seq<char>>,
)
    ensures
        inline_argv_spec(ns, ctx, mode, pod, cont, cmd).len() == 1 + base_fixed_spec(
            ns,
            ctx,
            mode,
            pod,
            cont,
        ).len() + cmd.len(),
        forall|j: int|
            0 <= j < cmd.len() ==> inline_argv_spec(ns, ctx, mode, pod, cont, cmd)[
                inline_argv_spec(ns, ctx, mode, pod, cont, cmd).len() - cmd.len() + j] == cmd[j],
        forall|j: int|
            0 <= j < cmd.len() ==> terminal_argv_spec(launcher, ns, ctx, mode, pod, cont, cmd)[
                terminal_argv_spec(launcher, ns, ctx, mode, pod, cont, cmd).len() - cmd.len() + j]
                == cmd[j],
{
    let inline = inline_argv_spec(ns, ctx, mode, pod, cont, cmd);
    let terminal = terminal_argv_spec(launcher, ns, ctx, mode, pod, cont, cmd);
    assert forall|j: int| 0 <= j < cmd.len() implies inline[inline.len() - cmd.len() + j] == cmd[j]
    by {
        assert(inline[1 + base_fixed_spec(ns, ctx, mode, pod, cont).len() + j] == cmd[j]);
    }
    assert forall|j: int| 0 <= j < cmd.len() implies terminal[terminal.len() - cmd.len() + j]
        == cmd[j] by {
        assert(terminal[split_words(launcher).len() + inline.len() - cmd.len() + j] == inline[
            inline.len() - cmd.len() + j]);
    }
}

} // verus!

use click_exec::flags::AttachMode;
use click_exec::invocation::{
    build_inline_invocation, build_terminal_invocation, choose_launcher, split_whitespace_words,
};

fn strings(words: &[&str]) -> Vec<String> {
    words.iter().map(|w| w.to_string()).collect()
}

#[test]
fn split_simple_launcher() {
    assert_eq!(split_whitespace_words("xterm -e"), strings(&["xterm", "-e"]));
}

#[test]
fn split_collapses_runs_and_edges() {
    assert_eq!(
        split_whitespace_words("  gnome-terminal\t --wait  -- "),
        strings(&["gnome-terminal", "--wait", "--"])
    );
    assert_eq!(split_whitespace_words(""), strings(&[]));
    assert_eq!(split_whitespace_words(" \t\n"), strings(&[]));
    assert_eq!(split_whitespace_words("xterm"), strings(&["xterm"]));
}

#[test]
fn inline_invocation_interactive_no_container() {
    let inv = build_inline_invocation(
        "ns1",
        "prod",
        AttachMode::InteractiveTty,
        "podname",
        &None,
        &strings(&["ls", "-la"]),
    );
    assert_eq!(
        inv.argv,
        strings(&[
            "kubectl",
            "--namespace",
            "ns1",
            "--context",
            "prod",
            "exec",
            "-it",
            "podname",
            "--",
            "ls",
            "-la",
        ])
    );
}

#[test]
fn inline_invocation_with_container() {
    let inv = build_inline_invocation(
        "ns2",
        "staging",
        AttachMode::TtyOnly,
        "web-0",
        &Some("sidecar".to_string()),
        &strings(&["sh"]),
    );
    assert_eq!(
        inv.argv,
        strings(&[
            "kubectl",
            "--namespace",
            "ns2",
            "--context",
            "staging",
            "exec",
            "-t",
            "web-0",
            "-c",
            "sidecar",
            "--",
            "sh",
        ])
    );
}

#[test]
fn inline_invocation_stdin_only_token() {
    let inv = build_inline_invocation(
        "ns1",
        "prod",
        AttachMode::StdinOnly,
        "podname",
        &None,
        &strings(&["ls", "-la"]),
    );
    assert!(inv.argv.contains(&"-i".to_string()));
    assert!(!inv.argv.contains(&"-it".to_string()));
    assert_eq!(inv.argv[6], "-i");
}

#[test]
fn inline_invocation_omits_empty_attach_token() {
    let inv = build_inline_invocation(
        "ns1",
        "prod",
        AttachMode::NoAttach,
        "podname",
        &None,
        &strings(&["env"]),
    );
    assert_eq!(
        inv.argv,
        strings(&[
            "kubectl",
            "--namespace",
            "ns1",
            "--context",
            "prod",
            "exec",
            "podname",
            "--",
            "env",
        ])
    );
}

#[test]
fn terminal_invocation_prefixes_launcher_words() {
    let launcher = choose_launcher(&None, &None);
    assert_eq!(launcher, "xterm -e");
    let inv = build_terminal_invocation(
        &launcher,
        "ns1",
        "prod",
        AttachMode::InteractiveTty,
        "podname",
        &None,
        &strings(&["ls", "-la"]),
    );
    assert_eq!(
        inv.argv,
        strings(&[
            "xterm",
            "-e",
            "kubectl",
            "--namespace",
            "ns1",
            "--context",
            "prod",
            "exec",
            "-it",
            "podname",
            "--",
            "ls",
            "-la",
        ])
    );
}

#[test]
fn launcher_precedence() {
    assert_eq!(
        choose_launcher(&Some("kitty".to_string()), &Some("alacritty -e".to_string())),
        "kitty"
    );
    assert_eq!(
        choose_launcher(&None, &Some("alacritty -e".to_string())),
        "alacritty -e"
    );
    assert_eq!(choose_launcher(&None, &None), "xterm -e");
}

#[test]
fn builder_is_deterministic() {
    let cmd = strings(&["echo", "a  b", "c"]);
    let a = build_inline_invocation(
        "ns",
        "ctx",
        AttachMode::InteractiveTty,
        "p",
        &Some("c1".to_string()),
        &cmd,
    );
    let b = build_inline_invocation(
        "ns",
        "ctx",
        AttachMode::InteractiveTty,
        "p",
        &Some("c1".to_string()),
        &cmd,
    );
    assert_eq!(a.argv, b.argv);
}

#[test]
fn command_words_kept_verbatim() {
    let cmd = strings(&["sh", "-c", "echo 'a b'  ;  ls"]);
    let inv = build_inline_invocation("ns", "ctx", AttachMode::NoAttach, "p", &None, &cmd);
    let tail: Vec<String> = inv.argv[inv.argv.len() - 3..].to_vec();
    assert_eq!(tail, cmd);
}

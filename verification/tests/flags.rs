use click_exec::flags::{
    attach_token, parse_bool, resolve_attach_mode, resolve_flag, valid_bool, AttachMode, FlagInput,
};

#[test]
fn parse_bool_accepts_exact_words() {
    assert_eq!(parse_bool("true"), Some(true));
    assert_eq!(parse_bool("false"), Some(false));
    assert_eq!(parse_bool("True"), None);
    assert_eq!(parse_bool("FALSE"), None);
    assert_eq!(parse_bool(""), None);
    assert_eq!(parse_bool("1"), None);
    assert_eq!(parse_bool("yes"), None);
}

#[test]
fn valid_bool_accepts_booleans() {
    assert!(valid_bool("true".to_string()).is_ok());
    assert!(valid_bool("false".to_string()).is_ok());
}

#[test]
fn valid_bool_rejects_malformed_value_with_message() {
    let r = valid_bool("banana".to_string());
    assert_eq!(
        r,
        Err("provided string was not `true` or `false`".to_string())
    );
}

#[test]
fn resolve_flag_defaults_to_true() {
    assert_eq!(resolve_flag(&FlagInput::Absent), Some(true));
    assert_eq!(resolve_flag(&FlagInput::PresentNoValue), Some(true));
}

#[test]
fn resolve_flag_parses_explicit_values() {
    assert_eq!(
        resolve_flag(&FlagInput::PresentWithValue("true".to_string())),
        Some(true)
    );
    assert_eq!(
        resolve_flag(&FlagInput::PresentWithValue("false".to_string())),
        Some(false)
    );
    assert_eq!(
        resolve_flag(&FlagInput::PresentWithValue("maybe".to_string())),
        None
    );
}

#[test]
fn both_absent_yields_interactive_tty() {
    let m = resolve_attach_mode(&FlagInput::Absent, &FlagInput::Absent);
    assert_eq!(m, Some(AttachMode::InteractiveTty));
}

#[test]
fn attach_mode_table_explicit_values() {
    let t = |v: &str| FlagInput::PresentWithValue(v.to_string());
    assert_eq!(
        resolve_attach_mode(&t("true"), &t("true")),
        Some(AttachMode::InteractiveTty)
    );
    assert_eq!(
        resolve_attach_mode(&t("true"), &t("false")),
        Some(AttachMode::TtyOnly)
    );
    assert_eq!(
        resolve_attach_mode(&t("false"), &t("true")),
        Some(AttachMode::StdinOnly)
    );
    assert_eq!(
        resolve_attach_mode(&t("false"), &t("false")),
        Some(AttachMode::NoAttach)
    );
}

#[test]
fn attach_mode_table_mixed_presence() {
    let f = FlagInput::PresentWithValue("false".to_string());
    assert_eq!(
        resolve_attach_mode(&FlagInput::PresentNoValue, &f),
        Some(AttachMode::TtyOnly)
    );
    assert_eq!(
        resolve_attach_mode(&f, &FlagInput::PresentNoValue),
        Some(AttachMode::StdinOnly)
    );
    assert_eq!(
        resolve_attach_mode(&FlagInput::Absent, &FlagInput::PresentNoValue),
        Some(AttachMode::InteractiveTty)
    );
}

#[test]
fn malformed_value_blocks_resolution() {
    let bad = FlagInput::PresentWithValue("banana".to_string());
    assert_eq!(resolve_attach_mode(&bad, &FlagInput::Absent), None);
    assert_eq!(resolve_attach_mode(&FlagInput::Absent, &bad), None);
}

#[test]
fn attach_tokens_are_exact() {
    assert_eq!(attach_token(AttachMode::InteractiveTty), "-it");
    assert_eq!(attach_token(AttachMode::TtyOnly), "-t");
    assert_eq!(attach_token(AttachMode::StdinOnly), "-i");
    assert_eq!(attach_token(AttachMode::NoAttach), "");
}

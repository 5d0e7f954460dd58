use broot_verbs::internal::Internal;
use broot_verbs::invocation::{accepts, find_capture, match_grammar, ArgClass, ArgGrammar, ArgSlot, Capture};

fn cap(name: &str, value: &str) -> Capture {
    Capture { name: name.to_string(), value: value.to_string() }
}

#[test]
fn line_down_count_absent_or_present() {
    assert_eq!(Internal::line_down.match_invocation("line_down"), Some(vec![]));
    assert_eq!(Internal::line_down.match_invocation("line_down 3"), Some(vec![cap("count", "3")]));
    assert_eq!(Internal::line_down.match_invocation("line_down x"), None);
    assert_eq!(Internal::line_down.match_invocation("line_down_no_cycle 3"), None);
    assert_eq!(Internal::line_down.match_invocation("line_up 3"), None);
}

#[test]
fn focus_path_capture_takes_the_rest() {
    assert_eq!(
        Internal::focus.match_invocation("focus my dir/sub"),
        Some(vec![cap("path", "my dir/sub")])
    );
    assert_eq!(Internal::focus.match_invocation("focus"), Some(vec![]));
}

#[test]
fn two_digit_captures() {
    assert_eq!(
        Internal::move_panel_divider.match_invocation("move_panel_divider 1 -4"),
        Some(vec![cap("idx", "1"), cap("dx", "-4")])
    );
    assert_eq!(
        Internal::move_panel_divider.match_invocation("move_panel_divider 0 12"),
        Some(vec![cap("idx", "0"), cap("dx", "12")])
    );
    assert_eq!(Internal::move_panel_divider.match_invocation("move_panel_divider 1"), None);
    assert_eq!(Internal::move_panel_divider.match_invocation("move_panel_divider"), None);
    assert_eq!(
        Internal::set_panel_width.match_invocation("set_panel_width 2 40"),
        Some(vec![cap("idx", "2"), cap("width", "40")])
    );
    assert_eq!(Internal::set_panel_width.match_invocation("set_panel_width 2 -40"), None);
}

#[test]
fn theme_is_a_closed_vocabulary() {
    assert_eq!(
        Internal::set_syntax_theme.match_invocation("set_syntax_theme OceanDark"),
        Some(vec![cap("theme", "OceanDark")])
    );
    assert_eq!(Internal::set_syntax_theme.match_invocation("set_syntax_theme Nope"), None);
}

#[test]
fn flags_follow_the_dash() {
    assert_eq!(Internal::apply_flags.match_invocation("-sd"), Some(vec![cap("flags", "sd")]));
    assert_eq!(Internal::apply_flags.match_invocation("-"), Some(vec![]));
    assert_eq!(Internal::apply_flags.match_invocation("-s d"), None);
}

#[test]
fn plain_actions_take_no_argument() {
    assert_eq!(Internal::quit.match_invocation("quit"), Some(vec![]));
    assert_eq!(Internal::quit.match_invocation("quit now"), None);
    assert_eq!(Internal::write_output.match_invocation("write_output a b"), Some(vec![cap("line", "a b")]));
    assert_eq!(Internal::write_output.match_invocation("write_output"), None);
}

#[test]
fn classes_accept_their_text() {
    assert!(accepts(ArgClass::Digits, ""));
    assert!(!accepts(ArgClass::NonEmptyDigits, ""));
    assert!(accepts(ArgClass::SignedInt, "-7"));
    assert!(!accepts(ArgClass::SignedInt, "-"));
    assert!(accepts(ArgClass::Word, "a_B9"));
    assert!(!accepts(ArgClass::Word, "a-b"));
    assert!(!accepts(ArgClass::Token, "a b"));
    assert!(accepts(ArgClass::Anything, "a b"));
}

#[test]
fn verb_grammar_with_tokens() {
    let g = ArgGrammar {
        slots: vec![
            ArgSlot { name: "from".to_string(), class: ArgClass::Token },
            ArgSlot { name: "to".to_string(), class: ArgClass::Anything },
        ],
        optional: false,
    };
    let caps = match_grammar(&g, Some("a.txt b c")).unwrap();
    assert_eq!(caps, vec![cap("from", "a.txt"), cap("to", "b c")]);
    assert_eq!(find_capture(&caps, "to"), Some(&"b c".to_string()));
    assert_eq!(find_capture(&caps, "none"), None);
    assert_eq!(match_grammar(&g, None), None);
    assert_eq!(match_grammar(&g, Some("nospace")), None);
}

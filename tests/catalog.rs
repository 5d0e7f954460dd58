use broot_verbs::internal::{ConfError, Internal};

#[test]
fn lookup_round_trips_every_name() {
    let names = [
        "apply_flags", "back", "focus", "quit", "line_down", "line_down_no_cycle", "input_clear",
        "toggle_hidden", "write_output", "up_tree", "set_syntax_theme", "move_panel_divider",
    ];
    for name in names {
        let internal = Internal::try_from(name).unwrap();
        assert_eq!(internal.name(), name);
    }
}

#[test]
fn lookup_finds_the_named_action() {
    assert_eq!(Internal::try_from("focus"), Ok(Internal::focus));
    assert_eq!(Internal::try_from("up_tree"), Ok(Internal::up_tree));
    assert_eq!(Internal::try_from("line_down_no_cycle"), Ok(Internal::line_down_no_cycle));
}

#[test]
fn lookup_of_unknown_name_fails() {
    assert_eq!(
        Internal::try_from("focuss"),
        Err(ConfError::UnknownInternal { verb: "focuss".to_string() })
    );
    assert_eq!(
        Internal::try_from(""),
        Err(ConfError::UnknownInternal { verb: String::new() })
    );
    assert!(Internal::try_from("Focus").is_err());
}

#[test]
fn metadata_of_actions() {
    assert_eq!(Internal::focus.description(), "display the directory (mapped to *enter*)");
    assert!(Internal::focus.need_path());
    assert!(!Internal::quit.need_path());
    assert!(Internal::trash.need_path());
    assert_eq!(Internal::quit.description(), "quit Broot");
}

#[test]
fn needs_selection_of_focus_and_quit() {
    assert!(!Internal::focus.needs_selection(&Some("/tmp".to_string())));
    assert!(Internal::focus.needs_selection(&None));
    assert!(!Internal::quit.needs_selection(&None));
    assert!(!Internal::quit.needs_selection(&Some("x".to_string())));
    assert!(Internal::copy_path.needs_selection(&Some("x".to_string())));
}

#[test]
fn input_related_actions() {
    assert!(Internal::input_clear.is_input_related());
    assert!(Internal::input_paste.is_input_related());
    assert!(Internal::input_selection_cut.is_input_related());
    assert!(!Internal::focus.is_input_related());
    assert!(!Internal::line_down.is_input_related());
}

#[test]
fn invocation_and_execution_patterns() {
    assert_eq!(Internal::line_down.invocation_pattern(), r"line_down (?P<count>\d*)?");
    assert_eq!(Internal::focus.invocation_pattern(), r"focus (?P<path>.*)?");
    assert_eq!(Internal::apply_flags.invocation_pattern(), r"-(?P<flags>\w+)?");
    assert_eq!(Internal::quit.invocation_pattern(), "quit");
    assert_eq!(Internal::focus.exec_pattern(), "focus {path}");
    assert_eq!(Internal::move_panel_divider.exec_pattern(), "move_panel_divider {idx} {dx}");
    assert_eq!(Internal::select.exec_pattern(), "select");
    assert_eq!(Internal::back.exec_pattern(), "back");
}

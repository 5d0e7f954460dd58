use broot_verbs::builder::{AppContext, AppState, ExecutionStringBuilder, SelInfo};
use broot_verbs::internal::Internal;
use broot_verbs::invocation::{ArgClass, ArgGrammar, ArgSlot, Capture};

fn path_grammar() -> ArgGrammar {
    ArgGrammar { slots: vec![ArgSlot { name: "path".to_string(), class: ArgClass::Anything }], optional: false }
}

fn state() -> AppState {
    AppState { root: "/project".to_string() }
}

#[test]
fn outer_capture_feeds_nested_focus() {
    let g = path_grammar();
    let b = ExecutionStringBuilder::with_invocation(
        Some(&g),
        &SelInfo::from_path("/home/user"),
        &state(),
        Some("proj"),
    );
    let text = b.build("focus {path}/target");
    assert_eq!(text, "focus proj/target");
    assert_eq!(
        Internal::focus.match_invocation(&text),
        Some(vec![Capture { name: "path".to_string(), value: "proj/target".to_string() }])
    );
}

#[test]
fn selection_values_fill_the_rest() {
    let b = ExecutionStringBuilder::without_invocation(&SelInfo::from_path("/a/b/c.txt"), &state());
    assert_eq!(b.build("{file}|{parent}|{root}|{unknown}|"), "/a/b/c.txt|/a/b|/project||");
    assert_eq!(b.build("{unclosed"), "{unclosed");
    assert_eq!(b.build("plain"), "plain");
    let none = ExecutionStringBuilder::without_invocation(&SelInfo::Nothing, &state());
    assert_eq!(none.build("{file}:{root}"), ":/project");
}

#[test]
fn builder_path_resolves_against_selection() {
    let con = AppContext { home: "/home/me".to_string() };
    let b = ExecutionStringBuilder::without_invocation(&SelInfo::from_path("/a/b"), &state());
    assert_eq!(b.path("../c", &con), "/a/c");
    assert_eq!(b.path("~/x", &con), "/home/me/x");
    let many = SelInfo::Many(vec!["/x".to_string(), "/y".to_string()]);
    let b = ExecutionStringBuilder::without_invocation(&many, &state());
    assert_eq!(b.path("sub", &con), "/project/sub");
}

use broot_verbs::builder::{AppContext, AppState, SelInfo};
use broot_verbs::focus::{
    get_status_markdown, new_panel_on_path, new_state_on_path, on_internal, on_path, path_from_input, CmdResult,
    HDir, InternalExecution, PanelPurpose, Placement, SelectionType, TriggerType, Verb, VerbInvocation,
};
use broot_verbs::internal::Internal;
use broot_verbs::invocation::{ArgClass, ArgGrammar, ArgSlot};

fn con() -> AppContext {
    AppContext { home: "/home/user".to_string() }
}

fn app_state(root: &str) -> AppState {
    AppState { root: root.to_string() }
}

fn exec(bang: bool, arg: Option<&str>) -> InternalExecution {
    InternalExecution { internal: Internal::focus, bang, arg: arg.map(|a| a.to_string()) }
}

fn invocation(bang: bool, args: Option<&str>) -> VerbInvocation {
    VerbInvocation { name: "focus".to_string(), bang, args: args.map(|a| a.to_string()) }
}

fn gotar() -> Verb {
    Verb {
        name: "gotar".to_string(),
        invocation_parser: Some(ArgGrammar {
            slots: vec![ArgSlot { name: "path".to_string(), class: ArgClass::Anything }],
            optional: false,
        }),
    }
}

#[test]
fn plain_key_on_selection_replaces_panel() {
    let r = on_internal(
        &exec(false, None),
        None,
        &TriggerType::Other,
        "/home/user/docs",
        false,
        &app_state("/home/user"),
        &con(),
    );
    assert_eq!(r.path, "/home/user/docs");
    assert_eq!(r.placement, Placement::Current);
}

#[test]
fn plain_key_on_root_goes_to_parent() {
    let r = on_internal(&exec(false, None), None, &TriggerType::Other, "/project", true, &app_state("/project"), &con());
    assert_eq!(r.path, "/");
    assert_eq!(r.placement, Placement::Current);
}

#[test]
fn forced_key_on_root_opens_new_panel_on_root() {
    let r = on_internal(&exec(true, None), None, &TriggerType::Other, "/project", true, &app_state("/project"), &con());
    assert_eq!(r.path, "/project");
    assert_eq!(r.placement, Placement::New { purpose: PanelPurpose::Plain, direction: HDir::Right });
}

#[test]
fn pending_input_opens_argument_panel() {
    let inv = invocation(false, Some("../sibling"));
    let r = on_internal(
        &exec(false, None),
        Some(&inv),
        &TriggerType::Other,
        "/home/user/docs",
        false,
        &app_state("/home/user"),
        &con(),
    );
    assert_eq!(r.path, "/home/user/sibling");
    assert_eq!(
        r.placement,
        Placement::New { purpose: PanelPurpose::ArgEdition { arg_type: SelectionType::Any }, direction: HDir::Right }
    );
}

#[test]
fn bound_argument_is_built_against_selection() {
    let r = on_internal(
        &exec(false, Some("{root}/../other")),
        None,
        &TriggerType::Other,
        "/home/user/docs",
        false,
        &app_state("/project/inner"),
        &con(),
    );
    assert_eq!(r.path, "/project/other");
    assert_eq!(r.placement, Placement::Current);
    let r = on_internal(&exec(true, Some("sub")), None, &TriggerType::Other, "/a", false, &app_state("/"), &con());
    assert_eq!(r.path, "/a/sub");
    assert_eq!(r.placement, Placement::New { purpose: PanelPurpose::Plain, direction: HDir::Right });
}

#[test]
fn input_triggered_verb_uses_its_captures() {
    let inv = invocation(false, Some("proj"));
    let r = on_internal(
        &exec(true, Some("{path}/target")),
        Some(&inv),
        &TriggerType::Input(gotar()),
        "/work",
        false,
        &app_state("/work"),
        &con(),
    );
    assert_eq!(r.path, "/work/proj/target");
    assert_eq!(r.placement, Placement::Current);
}

#[test]
fn path_from_input_branches() {
    let verb = Verb { name: "focus".to_string(), invocation_parser: None };
    let s = app_state("/r");
    let input = "~/x".to_string();
    assert_eq!(path_from_input(&verb, &exec(false, None), "/b", Some(&input), &s, &con()), "/home/user/x");
    assert_eq!(path_from_input(&verb, &exec(false, None), "/b", None, &s, &con()), "/b");
    assert_eq!(path_from_input(&verb, &exec(false, Some("c")), "/b", None, &s, &con()), "/b/c");
    let proj = "proj".to_string();
    assert_eq!(
        path_from_input(&gotar(), &exec(false, Some("{path}/t")), "/b", Some(&proj), &s, &con()),
        "/b/proj/t"
    );
}

#[test]
fn status_line_names_the_target() {
    let verb = Verb { name: "focus".to_string(), invocation_parser: None };
    let md = get_status_markdown(
        &verb,
        &exec(false, None),
        &SelInfo::from_path("/a/b"),
        &invocation(false, Some("..")),
        &app_state("/"),
        &con(),
    );
    assert_eq!(md, "Hit *enter* to focus `/a`");
    let md = get_status_markdown(&verb, &exec(false, None), &SelInfo::Nothing, &invocation(false, None), &app_state("/r"), &con());
    assert_eq!(md, "Hit *enter* to focus `/r`");
}

#[test]
fn settling_a_request() {
    let req = on_path("/x".to_string(), false);
    assert_eq!(req.placement, Placement::Current);
    match req.settle("/x".to_string(), Ok(())) {
        CmdResult::ReplaceCurrentPanel { path } => assert_eq!(path, "/x"),
        other => panic!("unexpected {:?}", other),
    }
    let req = on_path("/x/f.txt".to_string(), true);
    match req.settle("/x".to_string(), Ok(())) {
        CmdResult::NewPanel { path, purpose, direction } => {
            assert_eq!(path, "/x");
            assert_eq!(purpose, PanelPurpose::Plain);
            assert_eq!(direction, HDir::Right);
        }
        other => panic!("unexpected {:?}", other),
    }
    match new_state_on_path("/x".to_string(), Err("permission denied".to_string())) {
        CmdResult::DisplayError(m) => assert_eq!(m, "permission denied"),
        other => panic!("unexpected {:?}", other),
    }
    match new_panel_on_path("/y".to_string(), PanelPurpose::Preview, HDir::Left, Err("io".to_string())) {
        CmdResult::DisplayError(m) => assert_eq!(m, "io"),
        other => panic!("unexpected {:?}", other),
    }
}

//! The focus dispatcher: decides, for an invocation of the focus action,
//! which path to show and where.
//!
//! The decision is returned as a [`PanelRequest`]. Building the browsing
//! state of that path is the caller's work; [`PanelRequest::settle`] then
//! turns its outcome into the command result.

use vstd::prelude::*;
use crate::builder::{AppContext, AppState, BuildContext, ExecutionStringBuilder, SelInfo, path_in};
use crate::internal::Internal;
use crate::invocation::{ArgGrammar, match_args, slots_view};
use crate::path::{PathAnchor, parent, path_from, spec_parent, spec_path_from};
use crate::text::owned;

verus! {

/// The kind of path that an argument being edited expects.
#[derive(Debug, Clone, Copy, PartialEq, Eq, Structural)]
pub enum SelectionType {
    Any,
    File,
    Directory,
}

/// Why a panel is opened.
#[derive(Debug, Clone, Copy, PartialEq, Eq, Structural)]
pub enum PanelPurpose {
    /// Plain browsing.
    Plain,
    /// Previewing a file.
    Preview,
    /// Choosing a path for the argument of a command being composed.
    ArgEdition { arg_type: SelectionType },
}

/// A horizontal direction.
#[derive(Debug, Clone, Copy, PartialEq, Eq, Structural)]
pub enum HDir {
    Left,
    Right,
}

/// What the user typed: a verb name, the bang modifier and the argument
/// text.
#[derive(Debug, Clone)]
pub struct VerbInvocation {
    pub name: String,
    pub bang: bool,
    pub args: Option<String>,
}

/// A built-in action bound by configuration, with the literal argument and
/// the bang flag given there.
#[derive(Debug, Clone)]
pub struct InternalExecution {
    pub internal: Internal,
    pub bang: bool,
    pub arg: Option<String>,
}

/// A configured verb, with the argument grammar of its invocation.
#[derive(Debug, Clone)]
pub struct Verb {
    pub name: String,
    pub invocation_parser: Option<ArgGrammar>,
}

/// Where a dispatch request comes from.
#[derive(Debug, Clone)]
pub enum TriggerType {
    /// Typed text matched the invocation of this configured verb.
    Input(Verb),
    /// A key bound to the action.
    Other,
}

/// Where the resolved path is to be shown.
#[derive(Debug, Clone, Copy, PartialEq, Eq, Structural)]
pub enum Placement {
    /// In the current panel, in place of its state.
    Current,
    /// In a new panel.
    New { purpose: PanelPurpose, direction: HDir },
}

/// The decision of the dispatcher: the path to show and where. For a new
/// panel the caller first resolves symbolic links where the platform allows
/// it; in every case it then takes the closest directory of the path.
#[derive(Debug, Clone)]
pub struct PanelRequest {
    pub path: String,
    pub placement: Placement,
}

/// The outcome of a command.
#[derive(Debug, Clone)]
pub enum CmdResult {
    NoOp,
    ReplaceCurrentPanel { path: String },
    NewPanel { path: String, purpose: PanelPurpose, direction: HDir },
    DisplayError(String),
}

pub open spec fn opt_string_view(a: Option<&String>) -> Option<Seq<char>> {
    match a {
        Some(s) => Some(s@),
        None => None,
    }
}

pub open spec fn opt_owned_view(a: Option<String>) -> Option<Seq<char>> {
    match a {
        Some(s) => Some(s@),
        None => None,
    }
}

/// The build context of a configured verb: what its invocation pattern
/// reads from the input, the base path as selection, and the tree root.
pub open spec fn verb_context(verb: Verb, base: Seq<char>, input: Option<Seq<char>>, root: Seq<char>) -> BuildContext {
    BuildContext {
        captures: match verb.invocation_parser {
            Some(g) => match_args(slots_view(g.slots@), g.optional, input),
            None => None,
        },
        sel_path: Some(base),
        root,
    }
}

/// The path to go to when the action comes from typed input: the verb's
/// literal argument built in the verb's context, or else the input resolved
/// against the base path, or else the base path itself.
pub open spec fn spec_path_from_input(
    verb: Verb,
    exec_arg: Option<Seq<char>>,
    base: Seq<char>,
    input: Option<Seq<char>>,
    root: Seq<char>,
    home: Seq<char>,
) -> Seq<char> {
    match (input, exec_arg) {
        (Some(i), Some(a)) => path_in(verb_context(verb, base, Some(i), root), a, home),
        (Some(i), None) => spec_path_from(base, PathAnchor::Unspecified, i, home),
        (None, Some(a)) => path_in(verb_context(verb, base, None, root), a, home),
        (None, None) => base,
    }
}

/// The path to go to when the action comes from typed input.
pub fn path_from_input(
    verb: &Verb,
    internal_exec: &InternalExecution,
    base_path: &str,
    input_arg: Option<&String>,
    app_state: &AppState,
    con: &AppContext,
) -> (r: String)
    ensures
        r@ == spec_path_from_input(
            *verb,
            opt_owned_view(internal_exec.arg),
            base_path@,
            opt_string_view(input_arg),
            app_state.root@,
            con.home@,
        ),
{
    match (input_arg, &internal_exec.arg) {
        (Some(input_arg), Some(verb_arg)) => {
            let builder = ExecutionStringBuilder::with_invocation(
                verb.invocation_parser.as_ref(),
                &SelInfo::from_path(base_path),
                app_state,
                Some(input_arg.as_str()),
            );
            builder.path(verb_arg.as_str(), con)
        },
        (Some(input_arg), None) => path_from(base_path, PathAnchor::Unspecified, input_arg.as_str(), con.home.as_str()),
        (None, Some(verb_arg)) => {
            let builder = ExecutionStringBuilder::with_invocation(
                verb.invocation_parser.as_ref(),
                &SelInfo::from_path(base_path),
                app_state,
                None,
            );
            builder.path(verb_arg.as_str(), con)
        },
        (None, None) => owned(base_path),
    }
}

/// The status line shown while the action is typed.
pub fn get_status_markdown(
    verb: &Verb,
    internal_exec: &InternalExecution,
    sel_info: &SelInfo,
    invocation: &VerbInvocation,
    app_state: &AppState,
    con: &AppContext,
) -> (r: String)
    ensures
        r@ == "Hit *enter* to focus `"@ + spec_path_from_input(
            *verb,
            opt_owned_view(internal_exec.arg),
            match sel_info.spec_one_path() {
                Some(p) => p,
                None => app_state.root@,
            },
            opt_owned_view(invocation.args),
            app_state.root@,
            con.home@,
        ) + "`"@,
{
    let path = match sel_info {
        SelInfo::One(p) => path_from_input(verb, internal_exec, p.as_str(), invocation.args.as_ref(), app_state, con),
        _ => path_from_input(verb, internal_exec, app_state.root.as_str(), invocation.args.as_ref(), app_state, con),
    };
    let mut r = owned("Hit *enter* to focus `");
    r.append(path.as_str());
    r.append("`");
    r
}

/// Where a path is shown: a new panel on the right when forced, the current
/// panel otherwise.
pub open spec fn placement_for(in_new_panel: bool) -> Placement {
    if in_new_panel {
        Placement::New { purpose: PanelPurpose::Plain, direction: HDir::Right }
    } else {
        Placement::Current
    }
}

/// Shows a path in the current panel, or in a new one on the right.
pub fn on_path(path: String, in_new_panel: bool) -> (r: PanelRequest)
    ensures
        r.path@ == path@,
        r.placement == placement_for(in_new_panel),
{
    if in_new_panel {
        PanelRequest { path, placement: Placement::New { purpose: PanelPurpose::Plain, direction: HDir::Right } }
    } else {
        PanelRequest { path, placement: Placement::Current }
    }
}

/// The result of replacing the current panel's state by one on `path`,
/// given whether that state could be built.
pub fn new_state_on_path(path: String, built: Result<(), String>) -> (r: CmdResult)
    ensures
        match built {
            Ok(()) => r matches CmdResult::ReplaceCurrentPanel { path: p } && p@ == path@,
            Err(e) => r matches CmdResult::DisplayError(m) && m@ == e@,
        },
{
    match built {
        Ok(()) => CmdResult::ReplaceCurrentPanel { path },
        Err(e) => CmdResult::DisplayError(e),
    }
}

/// The result of opening a new panel on `path`, given whether its state
/// could be built.
pub fn new_panel_on_path(path: String, purpose: PanelPurpose, direction: HDir, built: Result<(), String>) -> (r: CmdResult)
    ensures
        match built {
            Ok(()) => r matches CmdResult::NewPanel { path: p, purpose: q, direction: d } && p@ == path@
                && q == purpose && d == direction,
            Err(e) => r matches CmdResult::DisplayError(m) && m@ == e@,
        },
{
    match built {
        Ok(()) => CmdResult::NewPanel { path, purpose, direction },
        Err(e) => CmdResult::DisplayError(e),
    }
}

impl PanelRequest {
    /// The command result once the state on `dir` (the directory that the
    /// caller settled on for the requested path) was built or failed.
    pub fn settle(self, dir: String, built: Result<(), String>) -> (r: CmdResult)
        ensures
            match built {
                Ok(()) => match self.placement {
                    Placement::Current => r matches CmdResult::ReplaceCurrentPanel { path: p } && p@ == dir@,
                    Placement::New { purpose, direction } => r matches CmdResult::NewPanel {
                        path: p,
                        purpose: q,
                        direction: d,
                    } && p@ == dir@ && q == purpose && d == direction,
                },
                Err(e) => r matches CmdResult::DisplayError(m) && m@ == e@,
            },
    {
        match self.placement {
            Placement::Current => new_state_on_path(dir, built),
            Placement::New { purpose, direction } => new_panel_on_path(dir, purpose, direction, built),
        }
    }
}

/// The bang flag of a dispatch: the typed one, else the configured one.
pub open spec fn spec_bang(internal_exec: InternalExecution, input_invocation: Option<&VerbInvocation>) -> bool {
    match input_invocation {
        Some(inv) => inv.bang,
        None => internal_exec.bang,
    }
}

/// The argument text typed with the invocation, if any.
pub open spec fn spec_input_arg(input_invocation: Option<&VerbInvocation>) -> Option<Seq<char>> {
    match input_invocation {
        Some(inv) => opt_owned_view(inv.args),
        None => None,
    }
}

/// The decision of the focus dispatcher, as the path to show and where.
pub open spec fn spec_on_internal(
    internal_exec: InternalExecution,
    input_invocation: Option<&VerbInvocation>,
    trigger_type: TriggerType,
    selected_path: Seq<char>,
    is_root_selected: bool,
    root: Seq<char>,
    home: Seq<char>,
) -> (Seq<char>, Placement) {
    let bang = spec_bang(internal_exec, input_invocation);
    let input = spec_input_arg(input_invocation);
    match trigger_type {
        TriggerType::Input(verb) => (
            spec_path_from_input(verb, opt_owned_view(internal_exec.arg), selected_path, input, root, home),
            placement_for(bang),
        ),
        TriggerType::Other => match internal_exec.arg {
            Some(arg) => (
                path_in(BuildContext { captures: None, sel_path: Some(selected_path), root }, arg@, home),
                placement_for(bang),
            ),
            None => match input {
                Some(i) => (
                    spec_path_from(selected_path, PathAnchor::Unspecified, i, home),
                    Placement::New {
                        purpose: PanelPurpose::ArgEdition { arg_type: SelectionType::Any },
                        direction: HDir::Right,
                    },
                ),
                None => (
                    if !bang && is_root_selected {
                        spec_parent(selected_path)
                    } else {
                        selected_path
                    },
                    placement_for(bang),
                ),
            },
        },
    }
}

/// Dispatches the focus action, or a verb built on it: decides which path
/// to show and whether in the current panel or in a new one.
pub fn on_internal(
    internal_exec: &InternalExecution,
    input_invocation: Option<&VerbInvocation>,
    trigger_type: &TriggerType,
    selected_path: &str,
    is_root_selected: bool,
    app_state: &AppState,
    con: &AppContext,
) -> (r: PanelRequest)
    ensures
        (r.path@, r.placement) == spec_on_internal(
            *internal_exec,
            input_invocation,
            *trigger_type,
            selected_path@,
            is_root_selected,
            app_state.root@,
            con.home@,
        ),
{
    let bang = match input_invocation {
        Some(inv) => inv.bang,
        None => internal_exec.bang,
    };
    let input_arg: Option<&String> = match input_invocation {
        Some(inv) => inv.args.as_ref(),
        None => None,
    };
    match trigger_type {
        TriggerType::Input(verb) => {
            let path = path_from_input(verb, internal_exec, selected_path, input_arg, app_state, con);
            on_path(path, bang)
        },
        TriggerType::Other => {
            if let Some(arg) = &internal_exec.arg {
                let builder = ExecutionStringBuilder::without_invocation(&SelInfo::from_path(selected_path), app_state);
                let path = builder.path(arg.as_str(), con);
                on_path(path, bang)
            } else if let Some(input_arg) = input_arg {
                let path = path_from(selected_path, PathAnchor::Unspecified, input_arg.as_str(), con.home.as_str());
                let purpose = PanelPurpose::ArgEdition { arg_type: SelectionType::Any };
                PanelRequest { path, placement: Placement::New { purpose, direction: HDir::Right } }
            } else {
                let path = if !bang && is_root_selected {
                    parent(selected_path)
                } else {
                    owned(selected_path)
                };
                on_path(path, bang)
            }
        },
    }
}

} // verus!

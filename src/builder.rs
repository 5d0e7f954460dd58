//! Building the text of an execution from its `{placeholder}` pattern.
//!
//! A placeholder is first looked up among the arguments that the outer
//! verb's invocation pattern read from the typed input, then among the
//! values that the selection and the application state give (`file`,
//! `parent`, `root`). A placeholder that neither gives is replaced by
//! nothing.

use vstd::prelude::*;
use crate::invocation::{ArgGrammar, Capture, capture_of, captures_view, find_capture, match_grammar};
use crate::path::{PathAnchor, parent, path_from, spec_parent, spec_path_from};
use crate::text::{owned, push_char, str_eq};

verus! {

/// The current selection.
#[derive(Debug, Clone)]
pub enum SelInfo {
    /// Nothing is selected.
    Nothing,
    /// Exactly one path is selected.
    One(String),
    /// Several paths are selected.
    Many(Vec<String>),
}

impl SelInfo {
    /// The selected path when there is exactly one.
    pub open spec fn spec_one_path(&self) -> Option<Seq<char>> {
        match self {
            SelInfo::One(p) => Some(p@),
            _ => None,
        }
    }

    /// A selection of exactly this path.
    pub fn from_path(p: &str) -> (r: SelInfo)
        ensures
            r.spec_one_path() == Some(p@),
    {
        SelInfo::One(owned(p))
    }
}

/// The snapshot of the application state that a dispatch reads.
#[derive(Debug, Clone)]
pub struct AppState {
    /// The root of the current tree.
    pub root: String,
}

/// The environment of the application.
#[derive(Debug, Clone)]
pub struct AppContext {
    /// The user's home directory, which `~` designates.
    pub home: String,
}

/// The context in which an execution pattern is turned into text.
#[derive(Debug, Clone)]
pub struct ExecutionStringBuilder {
    /// What the outer verb's invocation pattern read from the input, if
    /// there is an outer verb and the input matched it.
    pub invocation_values: Option<Vec<Capture>>,
    /// The selected path, when exactly one is selected.
    pub sel_path: Option<String>,
    /// The root of the current tree.
    pub root: String,
}

/// The index of the first `c` of `t` at or after `from`, the length of `t`
/// when there is none.
pub open spec fn char_index(t: Seq<char>, c: char, from: int) -> int
    decreases t.len() - from,
{
    if from < 0 || from >= t.len() {
        t.len() as int
    } else if t[from] == c {
        from
    } else {
        char_index(t, c, from + 1)
    }
}

fn find_char(t: &str, c: char, from: usize) -> (r: usize)
    requires
        from <= t@.len(),
    ensures
        r == char_index(t@, c, from as int),
        from <= r <= t@.len(),
{
    let n = t.unicode_len();
    let mut j = from;
    while j < n
        invariant
            n == t@.len(),
            from <= j <= n,
            char_index(t@, c, from as int) == char_index(t@, c, j as int),
        decreases n - j,
    {
        if t.get_char(j) == c {
            return j;
        }
        j = j + 1;
    }
    j
}

/// What an execution pattern is built from: the outer verb's captures, if
/// the input matched its pattern, the selected path, when exactly one is
/// selected, and the tree root.
pub struct BuildContext {
    pub captures: Option<Seq<(Seq<char>, Seq<char>)>>,
    pub sel_path: Option<Seq<char>>,
    pub root: Seq<char>,
}

/// An optional string slice as an optional character sequence.
pub open spec fn opt_view(a: Option<&str>) -> Option<Seq<char>> {
    match a {
        Some(s) => Some(s@),
        None => None,
    }
}

/// The value that replaces the placeholder `name`.
pub open spec fn value_in(ctx: BuildContext, name: Seq<char>) -> Seq<char> {
    let captured = match ctx.captures {
        Some(c) => capture_of(c, name),
        None => None,
    };
    match captured {
        Some(v) => v,
        None => if name == "file"@ && ctx.sel_path is Some {
            ctx.sel_path->0
        } else if name == "parent"@ && ctx.sel_path is Some {
            spec_parent(ctx.sel_path->0)
        } else if name == "root"@ {
            ctx.root
        } else {
            Seq::empty()
        },
    }
}

/// The text that the pattern `t` gives from its index `i` on.
pub open spec fn expand_from(ctx: BuildContext, t: Seq<char>, i: int) -> Seq<char>
    decreases t.len() - i,
{
    if i < 0 || i >= t.len() {
        Seq::empty()
    } else if t[i] == '{' && i < char_index(t, '}', i + 1) < t.len() {
        let k = char_index(t, '}', i + 1);
        value_in(ctx, t.subrange(i + 1, k)) + expand_from(ctx, t, k + 1)
    } else {
        seq![t[i]] + expand_from(ctx, t, i + 1)
    }
}

/// The text that the pattern `t` gives: each `{name}` is replaced by the
/// value of `name`, every other character is kept.
pub open spec fn build_in(ctx: BuildContext, t: Seq<char>) -> Seq<char> {
    expand_from(ctx, t, 0)
}

/// The path that an execution pattern designates: the built text resolved
/// against the selected path, or the tree root when no single path is
/// selected.
pub open spec fn path_in(ctx: BuildContext, pattern: Seq<char>, home: Seq<char>) -> Seq<char> {
    let base = match ctx.sel_path {
        Some(p) => p,
        None => ctx.root,
    };
    spec_path_from(base, PathAnchor::Unspecified, build_in(ctx, pattern), home)
}

impl View for ExecutionStringBuilder {
    type V = BuildContext;

    open spec fn view(&self) -> BuildContext {
        BuildContext {
            captures: match self.invocation_values {
                Some(c) => Some(captures_view(c@)),
                None => None,
            },
            sel_path: match self.sel_path {
                Some(p) => Some(p@),
                None => None,
            },
            root: self.root@,
        }
    }
}

impl ExecutionStringBuilder {
    /// A builder for a verb whose invocation pattern (`parser`) reads the
    /// arguments from the typed input `input_arg`.
    pub fn with_invocation(
        parser: Option<&ArgGrammar>,
        sel_info: &SelInfo,
        app_state: &AppState,
        input_arg: Option<&str>,
    ) -> (r: ExecutionStringBuilder)
        ensures
            r@ == (BuildContext {
                captures: match parser {
                    Some(g) => crate::invocation::match_args(
                        crate::invocation::slots_view(g.slots@),
                        g.optional,
                        opt_view(input_arg),
                    ),
                    None => None,
                },
                sel_path: sel_info.spec_one_path(),
                root: app_state.root@,
            }),
    {
        let invocation_values = match parser {
            Some(g) => match_grammar(g, input_arg),
            None => None,
        };
        ExecutionStringBuilder {
            invocation_values,
            sel_path: Self::one_path(sel_info),
            root: app_state.root.clone(),
        }
    }

    /// A builder with no outer verb: placeholders come from the selection
    /// and the application state only.
    pub fn without_invocation(sel_info: &SelInfo, app_state: &AppState) -> (r: ExecutionStringBuilder)
        ensures
            r@ == (BuildContext { captures: None, sel_path: sel_info.spec_one_path(), root: app_state.root@ }),
    {
        ExecutionStringBuilder {
            invocation_values: None,
            sel_path: Self::one_path(sel_info),
            root: app_state.root.clone(),
        }
    }

    fn one_path(sel_info: &SelInfo) -> (r: Option<String>)
        ensures
            match r {
                Some(p) => sel_info.spec_one_path() == Some(p@),
                None => sel_info.spec_one_path() is None,
            },
    {
        match sel_info {
            SelInfo::One(p) => Some(p.clone()),
            _ => None,
        }
    }

    /// The value that replaces the placeholder `name`.
    pub fn value(&self, name: &str) -> (r: String)
        ensures
            r@ == value_in(self@, name@),
    {
        proof {
            reveal_strlit("file");
            reveal_strlit("parent");
            reveal_strlit("root");
        }
        if let Some(c) = &self.invocation_values {
            if let Some(v) = find_capture(c, name) {
                return v.clone();
            }
        }
        if let Some(p) = &self.sel_path {
            if str_eq(name, "file") {
                return p.clone();
            }
            if str_eq(name, "parent") {
                return parent(p.as_str());
            }
        }
        if str_eq(name, "root") {
            return self.root.clone();
        }
        String::new()
    }

    /// Builds the text of an execution from its pattern.
    pub fn build(&self, pattern: &str) -> (r: String)
        ensures
            r@ == build_in(self@, pattern@),
    {
        let n = pattern.unicode_len();
        let mut out = String::new();
        let mut i: usize = 0;
        while i < n
            invariant
                n == pattern@.len(),
                i <= n,
                out@ + expand_from(self@, pattern@, i as int) == build_in(self@, pattern@),
            decreases n - i,
        {
            let ghost before = out@;
            let c = pattern.get_char(i);
            if c == '{' {
                let k = find_char(pattern, '}', i + 1);
                if k < n {
                    let name = pattern.substring_char(i + 1, k);
                    let v = self.value(name);
                    out.append(v.as_str());
                    assert(before + expand_from(self@, pattern@, i as int) =~= out@ + expand_from(self@, 
                        pattern@,
                        k + 1,
                    ));
                    i = k + 1;
                    continue;
                }
            }
            push_char(&mut out, c);
            assert(before + expand_from(self@, pattern@, i as int) =~= out@ + expand_from(self@, 
                pattern@,
                i + 1,
            ));
            i = i + 1;
        }
        assert(out@ + expand_from(self@, pattern@, i as int) =~= out@);
        out
    }

    /// The path that an execution pattern designates.
    pub fn path(&self, pattern: &str, con: &AppContext) -> (r: String)
        ensures
            r@ == path_in(self@, pattern@, con.home@),
    {
        let text = self.build(pattern);
        match &self.sel_path {
            Some(p) => path_from(p.as_str(), PathAnchor::Unspecified, text.as_str(), con.home.as_str()),
            None => path_from(self.root.as_str(), PathAnchor::Unspecified, text.as_str(), con.home.as_str()),
        }
    }
}

} // verus!

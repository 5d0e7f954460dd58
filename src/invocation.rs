//! Reading typed text into the named arguments of a verb.
//!
//! An argument grammar is a list of named slots separated by single spaces.
//! Every slot but the last takes one space-free token; the last one takes
//! whatever text is left. A grammar may also be optional as a whole, in which
//! case no argument text at all is accepted and yields no capture.

use vstd::prelude::*;
use crate::internal::Internal;
use crate::text::{owned, starts_with, str_eq};

verus! {

/// What text a slot of a grammar accepts.
#[derive(Debug, Clone, Copy, PartialEq, Eq, Structural)]
pub enum ArgClass {
    /// Any text, spaces included.
    Anything,
    /// A non-empty run of characters other than the space.
    Token,
    /// A possibly empty run of decimal digits.
    Digits,
    /// A non-empty run of decimal digits.
    NonEmptyDigits,
    /// A non-empty run of decimal digits, optionally preceded by `-`.
    SignedInt,
    /// A non-empty run of ASCII letters, digits and underscores.
    Word,
    /// One of the names of the code preview themes.
    Theme,
}

/// A named slot of an argument grammar.
#[derive(Debug, Clone)]
pub struct ArgSlot {
    pub name: String,
    pub class: ArgClass,
}

/// The argument part of an invocation pattern.
#[derive(Debug, Clone)]
pub struct ArgGrammar {
    pub slots: Vec<ArgSlot>,
    /// Whether the invocation may come without any argument text.
    pub optional: bool,
}

/// A named argument read from typed text.
#[derive(Debug, Clone, PartialEq, Eq)]
pub struct Capture {
    pub name: String,
    pub value: String,
}

pub open spec fn capture_view(c: Capture) -> (Seq<char>, Seq<char>) {
    (c.name@, c.value@)
}

pub open spec fn captures_view(v: Seq<Capture>) -> Seq<(Seq<char>, Seq<char>)> {
    v.map_values(|c: Capture| capture_view(c))
}

/// A slot as a name and a class.
pub open spec fn slots_view(s: Seq<ArgSlot>) -> Seq<(Seq<char>, ArgClass)> {
    s.map_values(|a: ArgSlot| (a.name@, a.class))
}

pub open spec fn is_digit(c: char) -> bool {
    '0' <= c && c <= '9'
}

pub open spec fn is_word_char(c: char) -> bool {
    is_digit(c) || ('a' <= c && c <= 'z') || ('A' <= c && c <= 'Z') || c == '_'
}

pub open spec fn all_digits(t: Seq<char>) -> bool {
    forall|k: int| 0 <= k < t.len() ==> is_digit(#[trigger] t[k])
}

/// The names of the code preview themes.
pub open spec fn is_theme_name(t: Seq<char>) -> bool {
    t == "GitHub"@ || t == "SolarizedDark"@ || t == "SolarizedLight"@ || t == "EightiesDark"@
        || t == "MochaDark"@ || t == "OceanDark"@ || t == "OceanLight"@
}

pub open spec fn class_accepts(c: ArgClass, t: Seq<char>) -> bool {
    match c {
        ArgClass::Anything => true,
        ArgClass::Token => t.len() > 0 && forall|k: int| 0 <= k < t.len() ==> #[trigger] t[k] != ' ',
        ArgClass::Digits => all_digits(t),
        ArgClass::NonEmptyDigits => t.len() > 0 && all_digits(t),
        ArgClass::SignedInt => (t.len() > 0 && all_digits(t)) || (t.len() > 1 && t[0] == '-'
            && all_digits(t.drop_first())),
        ArgClass::Word => t.len() > 0 && forall|k: int| 0 <= k < t.len() ==> is_word_char(#[trigger] t[k]),
        ArgClass::Theme => is_theme_name(t),
    }
}

/// The index of the first space of `t` at or after `from`, or the length of
/// `t` when there is none.
pub open spec fn space_index(t: Seq<char>, from: int) -> int
    decreases t.len() - from,
{
    if from < 0 || from >= t.len() {
        t.len() as int
    } else if t[from] == ' ' {
        from
    } else {
        space_index(t, from + 1)
    }
}

/// The captures that the slots read from `t`, or `None` when `t` does not
/// fit them.
pub open spec fn match_slots(slots: Seq<(Seq<char>, ArgClass)>, t: Seq<char>) -> Option<Seq<(Seq<char>, Seq<char>)>>
    decreases slots.len(),
{
    if slots.len() == 0 {
        if t.len() == 0 {
            Some(Seq::empty())
        } else {
            None
        }
    } else if slots.len() == 1 {
        if class_accepts(slots[0].1, t) {
            Some(seq![(slots[0].0, t)])
        } else {
            None
        }
    } else {
        let k = space_index(t, 0);
        if k < t.len() && class_accepts(slots[0].1, t.subrange(0, k)) {
            match match_slots(slots.drop_first(), t.subrange(k + 1, t.len() as int)) {
                Some(rest) => Some(seq![(slots[0].0, t.subrange(0, k))] + rest),
                None => None,
            }
        } else {
            None
        }
    }
}

/// The captures that a grammar reads from the argument text of an
/// invocation (`None` when the invocation has no argument text).
pub open spec fn match_args(
    slots: Seq<(Seq<char>, ArgClass)>,
    optional: bool,
    args: Option<Seq<char>>,
) -> Option<Seq<(Seq<char>, Seq<char>)>> {
    match args {
        None => if optional || slots.len() == 0 {
            Some(Seq::empty())
        } else {
            None
        },
        Some(t) => match_slots(slots, t),
    }
}

fn is_theme(t: &str) -> (r: bool)
    ensures
        r == is_theme_name(t@),
{
    str_eq(t, "GitHub") || str_eq(t, "SolarizedDark") || str_eq(t, "SolarizedLight")
        || str_eq(t, "EightiesDark") || str_eq(t, "MochaDark") || str_eq(t, "OceanDark")
        || str_eq(t, "OceanLight")
}

/// Whether every character of `t` from `from` on satisfies the class test.
fn all_from(t: &str, from: usize, word: bool, nonspace: bool) -> (r: bool)
    requires
        from <= t@.len(),
    ensures
        r == (forall|k: int| from <= k < t@.len() ==> {
            let c = #[trigger] t@[k];
            if nonspace { c != ' ' } else if word { is_word_char(c) } else { is_digit(c) }
        }),
{
    let n = t.unicode_len();
    let mut i = from;
    while i < n
        invariant
            n == t@.len(),
            from <= i <= n,
            forall|k: int| from <= k < i ==> {
                let c = #[trigger] t@[k];
                if nonspace { c != ' ' } else if word { is_word_char(c) } else { is_digit(c) }
            },
        decreases n - i,
    {
        let c = t.get_char(i);
        let ok = if nonspace {
            c != ' '
        } else if word {
            ('0' <= c && c <= '9') || ('a' <= c && c <= 'z') || ('A' <= c && c <= 'Z') || c == '_'
        } else {
            '0' <= c && c <= '9'
        };
        if !ok {
            return false;
        }
        i = i + 1;
    }
    true
}

/// Whether a slot of class `c` accepts the text `t`.
pub fn accepts(c: ArgClass, t: &str) -> (r: bool)
    ensures
        r == class_accepts(c, t@),
{
    let n = t.unicode_len();
    match c {
        ArgClass::Anything => true,
        ArgClass::Token => n > 0 && all_from(t, 0, false, true),
        ArgClass::Digits => all_from(t, 0, false, false),
        ArgClass::NonEmptyDigits => n > 0 && all_from(t, 0, false, false),
        ArgClass::SignedInt => {
            if n > 0 && all_from(t, 0, false, false) {
                true
            } else if n > 1 && t.get_char(0) == '-' {
                let r = all_from(t, 1, false, false);
                assert(r == all_digits(t@.drop_first())) by {
                    if r {
                        assert forall|k: int| 0 <= k < t@.drop_first().len() implies is_digit(
                            #[trigger] t@.drop_first()[k],
                        ) by {
                            assert(t@.drop_first()[k] == t@[k + 1]);
                        }
                    } else {
                        assert(exists|k: int| 1 <= k < t@.len() && !is_digit(#[trigger] t@[k]));
                        let k = choose|k: int| 1 <= k < t@.len() && !is_digit(#[trigger] t@[k]);
                        assert(t@.drop_first()[k - 1] == t@[k]);
                    }
                }
                r
            } else {
                false
            }
        },
        ArgClass::Word => n > 0 && all_from(t, 0, true, false),
        ArgClass::Theme => is_theme(t),
    }
}

/// The index of the first space of `t`, or its length when there is none.
fn find_space(t: &str) -> (r: usize)
    ensures
        r == space_index(t@, 0),
{
    let n = t.unicode_len();
    let mut i: usize = 0;
    while i < n
        invariant
            n == t@.len(),
            i <= n,
            space_index(t@, 0) == space_index(t@, i as int),
        decreases n - i,
    {
        if t.get_char(i) == ' ' {
            return i;
        }
        i = i + 1;
    }
    i
}

fn match_slots_from(slots: &Vec<ArgSlot>, i: usize, t: &str) -> (r: Option<Vec<Capture>>)
    requires
        i <= slots@.len(),
    ensures
        match r {
            Some(v) => match_slots(slots_view(slots@).subrange(i as int, slots@.len() as int), t@) == Some(
                captures_view(v@),
            ),
            None => match_slots(slots_view(slots@).subrange(i as int, slots@.len() as int), t@) is None,
        },
    decreases slots@.len() - i,
{
    let ghost rest = slots_view(slots@).subrange(i as int, slots@.len() as int);
    let n = t.unicode_len();
    if i == slots.len() {
        if n == 0 {
            let v: Vec<Capture> = Vec::new();
            assert(captures_view(v@) =~= Seq::empty());
            return Some(v);
        }
        return None;
    }
    let slot = &slots[i];
    if i + 1 == slots.len() {
        if accepts(slot.class, t) {
            let mut v: Vec<Capture> = Vec::new();
            v.push(Capture { name: slot.name.clone(), value: owned(t) });
            assert(captures_view(v@) =~= seq![(rest[0].0, t@)]);
            return Some(v);
        }
        return None;
    }
    let k = find_space(t);
    if k >= n {
        return None;
    }
    let head = t.substring_char(0, k);
    if !accepts(slot.class, head) {
        return None;
    }
    let tail = t.substring_char(k + 1, n);
    assert(rest.drop_first() =~= slots_view(slots@).subrange(i + 1, slots@.len() as int));
    match match_slots_from(slots, i + 1, tail) {
        Some(mut v) => {
            let ghost old_v = v@;
            v.insert(0, Capture { name: slot.name.clone(), value: owned(head) });
            assert(captures_view(v@) =~= seq![(rest[0].0, head@)] + captures_view(old_v));
            Some(v)
        },
        None => None,
    }
}

/// Reads the argument text of an invocation with a grammar. `None` stands
/// for a mismatch; an absent optional argument yields no capture.
pub fn match_grammar(g: &ArgGrammar, args: Option<&str>) -> (r: Option<Vec<Capture>>)
    ensures
        match r {
            Some(v) => match_args(slots_view(g.slots@), g.optional, match args {
                Some(a) => Some(a@),
                None => None,
            }) == Some(captures_view(v@)),
            None => match_args(slots_view(g.slots@), g.optional, match args {
                Some(a) => Some(a@),
                None => None,
            }) is None,
        },
{
    match args {
        None => {
            if g.optional || g.slots.len() == 0 {
                let v: Vec<Capture> = Vec::new();
                assert(captures_view(v@) =~= Seq::empty());
                Some(v)
            } else {
                None
            }
        },
        Some(t) => {
            assert(slots_view(g.slots@).subrange(0, g.slots@.len() as int) =~= slots_view(g.slots@));
            match_slots_from(&g.slots, 0, t)
        },
    }
}

/// The value captured under `name`, the first one if several share it.
pub open spec fn capture_of(c: Seq<(Seq<char>, Seq<char>)>, name: Seq<char>) -> Option<Seq<char>>
    decreases c.len(),
{
    if c.len() == 0 {
        None
    } else if c[0].0 == name {
        Some(c[0].1)
    } else {
        capture_of(c.drop_first(), name)
    }
}

/// The value captured under `name`, if any.
pub fn find_capture<'a>(c: &'a Vec<Capture>, name: &str) -> (r: Option<&'a String>)
    ensures
        match r {
            Some(s) => capture_of(captures_view(c@), name@) == Some(s@),
            None => capture_of(captures_view(c@), name@) is None,
        },
{
    let mut i: usize = 0;
    assert(captures_view(c@).subrange(0, c@.len() as int) =~= captures_view(c@));
    while i < c.len()
        invariant
            i <= c@.len(),
            capture_of(captures_view(c@), name@) == capture_of(
                captures_view(c@).subrange(i as int, c@.len() as int),
                name@,
            ),
        decreases c@.len() - i,
    {
        let ghost s = captures_view(c@).subrange(i as int, c@.len() as int);
        assert(s.drop_first() =~= captures_view(c@).subrange(i + 1, c@.len() as int));
        if str_eq(c[i].name.as_str(), name) {
            return Some(&c[i].value);
        }
        i = i + 1;
    }
    assert(captures_view(c@).subrange(i as int, c@.len() as int) =~= Seq::empty());
    None
}

fn slot(name: &str, class: ArgClass) -> (r: ArgSlot)
    ensures
        r.name@ == name@,
        r.class == class,
{
    ArgSlot { name: owned(name), class }
}

impl Internal {
    /// The literal that starts an invocation of the action: `-` for the
    /// flags action, whose flags follow it directly, the name otherwise.
    pub open spec fn spec_keyword(self) -> Seq<char> {
        if self == Internal::apply_flags {
            "-"@
        } else {
            self.spec_name()
        }
    }

    /// The argument slots of the action's invocation pattern.
    pub open spec fn spec_arg_slots(self) -> Seq<(Seq<char>, ArgClass)> {
        match self {
            Internal::apply_flags => seq![("flags"@, ArgClass::Word)],
            Internal::focus | Internal::select | Internal::show => seq![("path"@, ArgClass::Anything)],
            Internal::line_down | Internal::line_up | Internal::line_down_no_cycle
            | Internal::line_up_no_cycle => seq![("count"@, ArgClass::Digits)],
            Internal::move_panel_divider => seq![
                ("idx"@, ArgClass::NonEmptyDigits),
                ("dx"@, ArgClass::SignedInt),
            ],
            Internal::set_panel_width => seq![
                ("idx"@, ArgClass::NonEmptyDigits),
                ("width"@, ArgClass::NonEmptyDigits),
            ],
            Internal::set_max_depth => seq![("depth"@, ArgClass::NonEmptyDigits)],
            Internal::set_syntax_theme => seq![("theme"@, ArgClass::Theme)],
            Internal::write_output => seq![("line"@, ArgClass::Anything)],
            _ => Seq::empty(),
        }
    }

    /// Whether the action may be invoked without its argument.
    pub open spec fn spec_args_optional(self) -> bool {
        match self {
            Internal::apply_flags | Internal::focus | Internal::select | Internal::show
            | Internal::line_down | Internal::line_up | Internal::line_down_no_cycle
            | Internal::line_up_no_cycle => true,
            _ => false,
        }
    }

    /// The argument grammar of the action's invocation pattern.
    pub fn arg_grammar(self) -> (r: ArgGrammar)
        ensures
            slots_view(r.slots@) == self.spec_arg_slots(),
            r.optional == self.spec_args_optional(),
    {
        let mut slots: Vec<ArgSlot> = Vec::new();
        match self {
            Internal::apply_flags => slots.push(slot("flags", ArgClass::Word)),
            Internal::focus | Internal::select | Internal::show => slots.push(slot("path", ArgClass::Anything)),
            Internal::line_down | Internal::line_up | Internal::line_down_no_cycle
            | Internal::line_up_no_cycle => slots.push(slot("count", ArgClass::Digits)),
            Internal::move_panel_divider => {
                slots.push(slot("idx", ArgClass::NonEmptyDigits));
                slots.push(slot("dx", ArgClass::SignedInt));
            },
            Internal::set_panel_width => {
                slots.push(slot("idx", ArgClass::NonEmptyDigits));
                slots.push(slot("width", ArgClass::NonEmptyDigits));
            },
            Internal::set_max_depth => slots.push(slot("depth", ArgClass::NonEmptyDigits)),
            Internal::set_syntax_theme => slots.push(slot("theme", ArgClass::Theme)),
            Internal::write_output => slots.push(slot("line", ArgClass::Anything)),
            _ => {},
        }
        let optional = match self {
            Internal::apply_flags | Internal::focus | Internal::select | Internal::show
            | Internal::line_down | Internal::line_up | Internal::line_down_no_cycle
            | Internal::line_up_no_cycle => true,
            _ => false,
        };
        let r = ArgGrammar { slots, optional };
        assert(slots_view(r.slots@) =~= self.spec_arg_slots());
        r
    }

    /// The argument text of an invocation of the action typed as `raw`:
    /// `None` when `raw` is no invocation of it, `Some(None)` when it has no
    /// argument text.
    pub open spec fn spec_split_invocation(self, raw: Seq<char>) -> Option<Option<Seq<char>>> {
        let kw = self.spec_keyword();
        if kw.len() <= raw.len() && raw.subrange(0, kw.len() as int) == kw {
            let rest = raw.subrange(kw.len() as int, raw.len() as int);
            if rest.len() == 0 {
                Some(None)
            } else if self == Internal::apply_flags {
                Some(Some(rest))
            } else if rest[0] == ' ' {
                Some(Some(rest.drop_first()))
            } else {
                None
            }
        } else {
            None
        }
    }

    /// The named arguments that the action's invocation pattern reads from
    /// the typed text `raw`, or `None` when the text does not match it.
    pub open spec fn spec_match_invocation(self, raw: Seq<char>) -> Option<Seq<(Seq<char>, Seq<char>)>> {
        match self.spec_split_invocation(raw) {
            None => None,
            Some(args) => match_args(self.spec_arg_slots(), self.spec_args_optional(), args),
        }
    }

    /// Matches typed text against the action's invocation pattern.
    pub fn match_invocation(self, raw: &str) -> (r: Option<Vec<Capture>>)
        ensures
            match r {
                Some(v) => self.spec_match_invocation(raw@) == Some(captures_view(v@)),
                None => self.spec_match_invocation(raw@) is None,
            },
    {
        let kw: &str = if self == Internal::apply_flags { "-" } else { self.name() };
        if !starts_with(raw, kw) {
            return None;
        }
        let g = self.arg_grammar();
        let n = raw.unicode_len();
        let k = kw.unicode_len();
        if k == n {
            return match_grammar(&g, None);
        }
        let rest = raw.substring_char(k, n);
        if self == Internal::apply_flags {
            match_grammar(&g, Some(rest))
        } else if raw.get_char(k) == ' ' {
            let args = raw.substring_char(k + 1, n);
            assert(args@ == rest@.drop_first());
            match_grammar(&g, Some(args))
        } else {
            None
        }
    }
}

/// Whatever text follows `focus ` is read back whole as the path argument
/// of the focus action.
pub proof fn lemma_focus_reads_back_path(t: Seq<char>)
    ensures
        Internal::focus.spec_match_invocation("focus "@ + t) == Some(seq![("path"@, t)]),
{
    reveal_strlit("focus");
    reveal_strlit("focus ");
    let raw = "focus "@ + t;
    assert(raw.subrange(0, 5) =~= "focus"@);
    let rest = raw.subrange(5, raw.len() as int);
    assert(rest[0] == ' ');
    assert(rest.drop_first() =~= t);
}

} // verus!

//! Lexical path resolution.
//!
//! A path is read as the list of its components: empty and `.` components
//! are dropped and `..` removes the component before it (the root is its own
//! parent). A resolved path is written back as `/` followed by the components
//! joined by `/`. The file system is not read here: the closest existing
//! directory is chosen from what the caller found about each ancestor.

use vstd::prelude::*;
use crate::text::{owned, push_char, str_eq};

verus! {

/// How the root of a path token is established.
#[derive(Debug, Clone, Copy, PartialEq, Eq, Structural)]
pub enum PathAnchor {
    /// `~` leads to the home directory, `/` to the root, anything else is
    /// taken relative to the base path.
    Unspecified,
    /// The token is taken from the root.
    Absolute,
    /// The token is taken from the home directory.
    HomeRelative,
}

/// The component stack after one more component.
pub open spec fn apply_segment(stack: Seq<Seq<char>>, seg: Seq<char>) -> Seq<Seq<char>> {
    if seg.len() == 0 || seg == "."@ {
        stack
    } else if seg == ".."@ {
        if stack.len() > 0 {
            stack.drop_last()
        } else {
            stack
        }
    } else {
        stack.push(seg)
    }
}

/// Reads the characters `rest` onto the component stack, `cur` being the
/// component read so far.
pub open spec fn walk(stack: Seq<Seq<char>>, cur: Seq<char>, rest: Seq<char>) -> Seq<Seq<char>>
    decreases rest.len(),
{
    if rest.len() == 0 {
        apply_segment(stack, cur)
    } else if rest[0] == '/' {
        walk(apply_segment(stack, cur), Seq::empty(), rest.drop_first())
    } else {
        walk(stack, cur.push(rest[0]), rest.drop_first())
    }
}

/// The normalized components of a path.
pub open spec fn components(p: Seq<char>) -> Seq<Seq<char>> {
    walk(Seq::empty(), Seq::empty(), p)
}

/// `/c0/c1/...` without the leading root for an empty list.
pub open spec fn render_tail(c: Seq<Seq<char>>) -> Seq<char>
    decreases c.len(),
{
    if c.len() == 0 {
        Seq::empty()
    } else {
        render_tail(c.drop_last()) + "/"@ + c.last()
    }
}

/// The absolute path made of the components `c`.
pub open spec fn render(c: Seq<Seq<char>>) -> Seq<char> {
    if c.len() == 0 {
        "/"@
    } else {
        render_tail(c)
    }
}

/// A component that a normalized path may hold.
pub open spec fn valid_component(x: Seq<char>) -> bool {
    &&& x.len() > 0
    &&& x != "."@
    &&& x != ".."@
    &&& forall|k: int| 0 <= k < x.len() ==> #[trigger] x[k] != '/'
}

pub open spec fn valid_components(c: Seq<Seq<char>>) -> bool {
    forall|k: int| 0 <= k < c.len() ==> valid_component(#[trigger] c[k])
}

/// A token that starts with the home marker `~` as its first component.
pub open spec fn is_home_marked(t: Seq<char>) -> bool {
    t.len() > 0 && t[0] == '~' && (t.len() == 1 || t[1] == '/')
}

/// The path that `token` designates from `base`, under `anchor`.
pub open spec fn spec_path_from(
    base: Seq<char>,
    anchor: PathAnchor,
    token: Seq<char>,
    home: Seq<char>,
) -> Seq<char> {
    if token.len() == 0 {
        base
    } else {
        match anchor {
            PathAnchor::Absolute => render(components(token)),
            PathAnchor::HomeRelative => render(walk(components(home), Seq::empty(), token)),
            PathAnchor::Unspecified => if is_home_marked(token) {
                render(walk(components(home), Seq::empty(), token.drop_first()))
            } else if token[0] == '/' {
                render(components(token))
            } else {
                render(walk(components(base), Seq::empty(), token))
            },
        }
    }
}

pub open spec fn stack_view(v: Seq<String>) -> Seq<Seq<char>> {
    v.map_values(|s: String| s@)
}

fn apply_segment_exec(stack: &mut Vec<String>, seg: String)
    ensures
        stack_view(final(stack)@) == apply_segment(stack_view(old(stack)@), seg@),
{
    proof {
        reveal_strlit(".");
        reveal_strlit("..");
    }
    if seg.unicode_len() == 0 || str_eq(seg.as_str(), ".") {
    } else if str_eq(seg.as_str(), "..") {
        if stack.len() > 0 {
            stack.pop();
            assert(stack_view(stack@) =~= stack_view(old(stack)@).drop_last());
        }
    } else {
        stack.push(seg);
        assert(stack_view(stack@) =~= stack_view(old(stack)@).push(seg@));
    }
}

/// Reads the characters of `p` onto the component stack.
fn walk_exec(stack: &mut Vec<String>, p: &str)
    ensures
        stack_view(final(stack)@) == walk(stack_view(old(stack)@), Seq::empty(), p@),
{
    let n = p.unicode_len();
    let mut cur = String::new();
    let mut i: usize = 0;
    assert(p@.subrange(0, n as int) =~= p@);
    while i < n
        invariant
            n == p@.len(),
            i <= n,
            walk(stack_view(stack@), cur@, p@.subrange(i as int, n as int)) == walk(
                stack_view(old(stack)@),
                Seq::empty(),
                p@,
            ),
        decreases n - i,
    {
        let c = p.get_char(i);
        let ghost r = p@.subrange(i as int, n as int);
        assert(r[0] == c);
        assert(r.drop_first() =~= p@.subrange(i + 1, n as int));
        if c == '/' {
            let seg = cur;
            apply_segment_exec(stack, seg);
            cur = String::new();
        } else {
            push_char(&mut cur, c);
        }
        i = i + 1;
    }
    apply_segment_exec(stack, cur);
}

/// Writes the components out as an absolute path.
fn render_exec(c: &Vec<String>) -> (r: String)
    ensures
        r@ == render(stack_view(c@)),
{
    if c.len() == 0 {
        return owned("/");
    }
    let mut out = String::new();
    let mut i: usize = 0;
    while i < c.len()
        invariant
            i <= c@.len(),
            out@ == render_tail(stack_view(c@).subrange(0, i as int)),
        decreases c@.len() - i,
    {
        assert(stack_view(c@).subrange(0, i + 1).drop_last() =~= stack_view(c@).subrange(0, i as int));
        out.append("/");
        out.append(c[i].as_str());
        i = i + 1;
    }
    assert(stack_view(c@).subrange(0, i as int) =~= stack_view(c@));
    out
}

/// The normalized components of a path.
pub fn split_components(p: &str) -> (r: Vec<String>)
    ensures
        stack_view(r@) == components(p@),
{
    let mut stack: Vec<String> = Vec::new();
    assert(stack_view(stack@) =~= Seq::empty());
    walk_exec(&mut stack, p);
    stack
}

/// Resolves a path token against a base path: an empty token designates the
/// base itself; otherwise the token is read from the root, from the home
/// directory or from the base, as the anchor and the token's first character
/// say, and the result is normalized.
pub fn path_from(base: &str, anchor: PathAnchor, token: &str, home: &str) -> (r: String)
    ensures
        r@ == spec_path_from(base@, anchor, token@, home@),
{
    let n = token.unicode_len();
    if n == 0 {
        return owned(base);
    }
    let mut stack: Vec<String> = Vec::new();
    assert(stack_view(stack@) =~= Seq::empty());
    match anchor {
        PathAnchor::Absolute => {
            walk_exec(&mut stack, token);
        },
        PathAnchor::HomeRelative => {
            walk_exec(&mut stack, home);
            walk_exec(&mut stack, token);
        },
        PathAnchor::Unspecified => {
            let first = token.get_char(0);
            if first == '~' && (n == 1 || token.get_char(1) == '/') {
                walk_exec(&mut stack, home);
                let rest = token.substring_char(1, n);
                assert(rest@ =~= token@.drop_first());
                walk_exec(&mut stack, rest);
            } else if first == '/' {
                walk_exec(&mut stack, token);
            } else {
                walk_exec(&mut stack, base);
                walk_exec(&mut stack, token);
            }
        },
    }
    render_exec(&stack)
}

/// The index, among the ancestors of a path (nearest first, the root last),
/// of the first one that is a directory; the root when none is.
pub open spec fn first_dir(is_dir: Seq<bool>, j: int) -> int
    decreases is_dir.len() - j,
{
    if j < 0 || j >= is_dir.len() - 1 {
        is_dir.len() - 1
    } else if is_dir[j] {
        j
    } else {
        first_dir(is_dir, j + 1)
    }
}

/// The ancestor `j` levels above the path whose components are `c`.
pub open spec fn ancestor(c: Seq<Seq<char>>, j: int) -> Seq<char> {
    render(c.subrange(0, c.len() - j))
}

/// The closest directory: the nearest ancestor of the path (the path itself
/// first) which is a directory, the root when none is.
pub open spec fn spec_closest_dir(p: Seq<char>, is_dir: Seq<bool>) -> Seq<char> {
    ancestor(components(p), first_dir(is_dir, 0))
}

/// The ancestors of a path, normalized, nearest first: the path itself, its
/// parent, and so on up to the root.
pub fn ancestors(p: &str) -> (r: Vec<String>)
    ensures
        r@.len() == components(p@).len() + 1,
        forall|j: int| 0 <= j < r@.len() ==> #[trigger] r@[j]@ == ancestor(components(p@), j),
{
    let mut c = split_components(p);
    let ghost full = stack_view(c@);
    let mut out: Vec<String> = Vec::new();
    loop
        invariant
            full == components(p@),
            stack_view(c@) == full.subrange(0, full.len() - out@.len()),
            out@.len() <= full.len(),
            forall|j: int| 0 <= j < out@.len() ==> #[trigger] out@[j]@ == ancestor(full, j),
        decreases full.len() - out@.len(),
    {
        let ghost j = out@.len() as int;
        assert(stack_view(c@).len() == c@.len());
        let item = render_exec(&c);
        out.push(item);
        if c.len() == 0 {
            return out;
        }
        c.pop();
        assert(stack_view(c@) =~= full.subrange(0, full.len() - (j + 1)));
    }
}

/// The closest directory of `p`, where `is_dir[j]` says whether the
/// ancestor `j` levels above `p` (as `ancestors` lists them) is a directory.
pub fn closest_dir(p: &str, is_dir: &Vec<bool>) -> (r: String)
    requires
        is_dir@.len() == components(p@).len() + 1,
    ensures
        r@ == spec_closest_dir(p@, is_dir@),
{
    let mut c = split_components(p);
    let ghost full = stack_view(c@);
    let mut j: usize = 0;
    let last = is_dir.len() - 1;
    while j < last && !is_dir[j]
        invariant
            is_dir@.len() == full.len() + 1,
            j < is_dir@.len(),
            last == is_dir@.len() - 1,
            first_dir(is_dir@, 0) == first_dir(is_dir@, j as int),
            stack_view(c@) == full.subrange(0, full.len() - j),
        decreases is_dir@.len() - j,
    {
        assert(stack_view(c@).len() == c@.len());
        c.pop();
        j = j + 1;
        assert(stack_view(c@) =~= full.subrange(0, full.len() - j));
    }
    render_exec(&c)
}

/// The parent of a path: the path without its last component, the root for
/// the root itself.
pub open spec fn spec_parent(p: Seq<char>) -> Seq<char> {
    let c = components(p);
    if c.len() > 0 {
        render(c.drop_last())
    } else {
        p
    }
}

/// The parent of a path.
pub fn parent(p: &str) -> (r: String)
    ensures
        r@ == spec_parent(p@),
{
    let mut c = split_components(p);
    if c.len() == 0 {
        return owned(p);
    }
    let ghost full = stack_view(c@);
    c.pop();
    assert(stack_view(c@) =~= full.drop_last());
    render_exec(&c)
}

proof fn lemma_walk_segment(stack: Seq<Seq<char>>, cur: Seq<char>, seg: Seq<char>, rest: Seq<char>)
    requires
        forall|k: int| 0 <= k < seg.len() ==> #[trigger] seg[k] != '/',
    ensures
        walk(stack, cur, seg + rest) == walk(stack, cur + seg, rest),
    decreases seg.len(),
{
    if seg.len() == 0 {
        assert(seg + rest =~= rest);
        assert(cur + seg =~= cur);
    } else {
        assert((seg + rest).drop_first() =~= seg.drop_first() + rest);
        assert(cur.push(seg[0]) + seg.drop_first() =~= cur + seg);
        lemma_walk_segment(stack, cur.push(seg[0]), seg.drop_first(), rest);
    }
}

proof fn lemma_walk_split(stack: Seq<Seq<char>>, cur: Seq<char>, a: Seq<char>, b: Seq<char>)
    ensures
        walk(stack, cur, a + ("/"@ + b)) == walk(walk(stack, cur, a), Seq::empty(), b),
    decreases a.len(),
{
    reveal_strlit("/");
    if a.len() == 0 {
        assert(a + ("/"@ + b) =~= "/"@ + b);
        assert(("/"@ + b).drop_first() =~= b);
    } else {
        assert((a + ("/"@ + b)).drop_first() =~= a.drop_first() + ("/"@ + b));
        if a[0] == '/' {
            lemma_walk_split(apply_segment(stack, cur), Seq::empty(), a.drop_first(), b);
        } else {
            lemma_walk_split(stack, cur.push(a[0]), a.drop_first(), b);
        }
    }
}

proof fn lemma_walk_render_tail(stack: Seq<Seq<char>>, c: Seq<Seq<char>>)
    requires
        valid_components(c),
    ensures
        walk(stack, Seq::empty(), render_tail(c)) == stack + c,
    decreases c.len(),
{
    if c.len() == 0 {
        assert(stack + c =~= stack);
    } else {
        let init = c.drop_last();
        let x = c.last();
        assert(valid_components(init)) by {
            assert forall|k: int| 0 <= k < init.len() implies valid_component(#[trigger] init[k]) by {
                assert(init[k] == c[k]);
            }
        }
        assert(valid_component(c[c.len() - 1]));
        lemma_walk_render_tail(stack, init);
        assert(render_tail(c) =~= render_tail(init) + ("/"@ + x));
        lemma_walk_split(stack, Seq::empty(), render_tail(init), x);
        lemma_walk_segment(stack + init, Seq::empty(), x, Seq::empty());
        assert(x + Seq::<char>::empty() =~= x);
        assert(Seq::<char>::empty() + x =~= x);
        assert((stack + init).push(x) =~= stack + c);
    }
}

/// A path written out from valid components reads back as those components.
pub proof fn lemma_components_of_render(c: Seq<Seq<char>>)
    requires
        valid_components(c),
    ensures
        components(render(c)) == c,
{
    reveal_strlit("/");
    if c.len() == 0 {
        let e = Seq::<Seq<char>>::empty();
        let z = Seq::<char>::empty();
        assert("/"@.drop_first() =~= z);
        assert(apply_segment(e, z) == e);
        assert(walk(e, z, z) == e);
        assert(walk(e, z, "/"@) == walk(apply_segment(e, z), z, "/"@.drop_first()));
    } else {
        lemma_walk_render_tail(Seq::empty(), c);
        assert(Seq::<Seq<char>>::empty() + c =~= c);
    }
}

/// Resolving a normalized absolute path that names an existing directory
/// yields that same path.
pub proof fn lemma_resolve_existing_dir_is_identity(
    base: Seq<char>,
    home: Seq<char>,
    c: Seq<Seq<char>>,
    is_dir: Seq<bool>,
)
    requires
        valid_components(c),
        is_dir.len() == c.len() + 1,
        is_dir[0],
    ensures
        spec_path_from(base, PathAnchor::Unspecified, render(c), home) == render(c),
        spec_closest_dir(spec_path_from(base, PathAnchor::Unspecified, render(c), home), is_dir)
            == render(c),
{
    reveal_strlit("/");
    lemma_components_of_render(c);
    let p = render(c);
    if c.len() > 0 {
        lemma_render_tail_starts_with_slash(c);
    }
    assert(p.len() > 0 && p[0] == '/');
    assert(c.subrange(0, c.len() as int) =~= c);
}

proof fn lemma_render_tail_starts_with_slash(c: Seq<Seq<char>>)
    requires
        c.len() > 0,
    ensures
        render_tail(c).len() > 0,
        render_tail(c)[0] == '/',
    decreases c.len(),
{
    reveal_strlit("/");
    let init = render_tail(c.drop_last());
    if c.len() > 1 {
        lemma_render_tail_starts_with_slash(c.drop_last());
        assert((init + "/"@ + c.last())[0] == init[0]);
    } else {
        assert(init.len() == 0);
        assert((init + "/"@ + c.last())[0] == "/"@[0]);
    }
}

/// The closest directory of a path that is not a directory, and whose parent
/// is one, is that parent (the case of a regular file).
pub proof fn lemma_closest_dir_of_file(c: Seq<Seq<char>>, is_dir: Seq<bool>)
    requires
        valid_components(c),
        c.len() > 0,
        is_dir.len() == c.len() + 1,
        !is_dir[0],
        is_dir[1],
    ensures
        spec_closest_dir(render(c), is_dir) == spec_parent(render(c)),
{
    lemma_components_of_render(c);
    lemma_first_dir_from(is_dir, 0, 1);
    assert(c.subrange(0, c.len() - 1) =~= c.drop_last());
}

/// The closest directory of a path is its nearest ancestor that is a
/// directory: the one `k` levels up when none below it is.
pub proof fn lemma_closest_dir_is_nearest(c: Seq<Seq<char>>, is_dir: Seq<bool>, k: int)
    requires
        valid_components(c),
        is_dir.len() == c.len() + 1,
        0 <= k < is_dir.len(),
        is_dir[k],
        forall|j: int| 0 <= j < k ==> !#[trigger] is_dir[j],
    ensures
        spec_closest_dir(render(c), is_dir) == render(c.subrange(0, c.len() - k)),
{
    lemma_components_of_render(c);
    lemma_first_dir_from(is_dir, 0, k);
}

proof fn lemma_first_dir_from(is_dir: Seq<bool>, j: int, k: int)
    requires
        0 <= j <= k < is_dir.len(),
        is_dir[k],
        forall|i: int| 0 <= i < k ==> !#[trigger] is_dir[i],
    ensures
        first_dir(is_dir, j) == k,
    decreases k - j,
{
    if j < k {
        lemma_first_dir_from(is_dir, j + 1, k);
    }
}

} // verus!

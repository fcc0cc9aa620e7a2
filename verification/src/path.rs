//! Unix path semantics on plain strings: splitting into components,
//! joining, component-wise prefixes and the final file name.
//!
//! A path is a string of characters; `/` separates components. As on Unix,
//! a leading `/` is the root, repeated separators and trailing separators
//! are ignored, `.` components vanish except at the very start of a
//! relative path, and `..` is kept as a parent component.
use vstd::prelude::*;
use crate::text::{chars_of, push_char, str_eq, concat};

verus! {

/// One component of a path.
pub enum Component {
    Root,
    Cur,
    Parent,
    Normal(Seq<char>),
}

/// The pieces of `p` between separators, empty pieces included
/// (so `"a//b/"` gives `["a", "", "b", ""]`).
pub open spec fn split_slash(p: Seq<char>) -> Seq<Seq<char>>
    decreases p.len(),
{
    if p.len() == 0 {
        seq![Seq::<char>::empty()]
    } else {
        let s = split_slash(p.drop_last());
        if p.last() == '/' {
            s.push(Seq::<char>::empty())
        } else {
            s.update(s.len() - 1, s.last().push(p.last()))
        }
    }
}

/// Pieces that do not yield a component: empty ones and `.`.
pub open spec fn is_skipped(part: Seq<char>) -> bool {
    part.len() == 0 || part == seq!['.']
}

/// The component that a non-skipped piece yields.
pub open spec fn part_component(part: Seq<char>) -> Component {
    if part == seq!['.', '.'] {
        Component::Parent
    } else {
        Component::Normal(part)
    }
}

/// The components that a list of pieces yields, in order.
pub open spec fn body_components(parts: Seq<Seq<char>>) -> Seq<Component>
    decreases parts.len(),
{
    if parts.len() == 0 {
        Seq::empty()
    } else {
        let rest = body_components(parts.drop_last());
        if is_skipped(parts.last()) {
            rest
        } else {
            rest.push(part_component(parts.last()))
        }
    }
}

/// A path is absolute when it starts at the root.
pub open spec fn has_root(p: Seq<char>) -> bool {
    p.len() > 0 && p[0] == '/'
}

/// A relative path that starts with the piece `.`.
pub open spec fn leading_cur(p: Seq<char>) -> bool {
    p.len() > 0 && p[0] == '.' && (p.len() == 1 || p[1] == '/')
}

/// The components of a path.
pub open spec fn components(p: Seq<char>) -> Seq<Component> {
    let head = if has_root(p) {
        seq![Component::Root]
    } else if leading_cur(p) {
        seq![Component::Cur]
    } else {
        Seq::empty()
    };
    head + body_components(split_slash(p))
}

/// `base` is a prefix of `p`, counting whole components only.
pub open spec fn path_starts_with(p: Seq<char>, base: Seq<char>) -> bool {
    let cp = components(p);
    let cb = components(base);
    cb.len() <= cp.len() && cp.subrange(0, cb.len() as int) == cb
}

/// `base` joined with `rel`: an absolute `rel` replaces `base`; otherwise a
/// separator is put between them unless `base` is empty or already ends in one.
pub open spec fn path_join(base: Seq<char>, rel: Seq<char>) -> Seq<char> {
    if has_root(rel) {
        rel
    } else if base.len() > 0 && base.last() != '/' {
        base + seq!['/'] + rel
    } else {
        base + rel
    }
}

/// The final component of `p` when it is a normal one.
pub open spec fn path_file_name(p: Seq<char>) -> Option<Seq<char>> {
    let c = components(p);
    if c.len() > 0 && c.last() is Normal {
        Some(c.last()->Normal_0)
    } else {
        None
    }
}

/// The index of the last `.` of `f`, or `-1` when it has none.
pub open spec fn last_dot(f: Seq<char>) -> int
    decreases f.len(),
{
    if f.len() == 0 {
        -1
    } else if f.last() == '.' {
        f.len() - 1
    } else {
        last_dot(f.drop_last())
    }
}

/// The extension of a file name: what follows its last `.`, provided that
/// something precedes that dot (so `.bashrc` has none).
pub open spec fn name_extension(f: Seq<char>) -> Option<Seq<char>> {
    let k = last_dot(f);
    if k > 0 {
        Some(f.subrange(k + 1, f.len() as int))
    } else {
        None
    }
}

/// The extension of the file name of `p`, when it has one.
pub open spec fn path_extension(p: Seq<char>) -> Option<Seq<char>> {
    match path_file_name(p) {
        Some(f) => name_extension(f),
        None => None,
    }
}

/// One step of resolving a path lexically: `.` vanishes, `..` removes the
/// name before it (there must be one: it cannot climb above the root or the
/// start of a relative path), anything else is appended.
pub open spec fn resolve_step(stack: Seq<Component>, c: Component) -> Option<Seq<Component>> {
    match c {
        Component::Cur => Some(stack),
        Component::Parent => if stack.len() > 0 && stack.last() is Normal {
            Some(stack.drop_last())
        } else {
            None
        },
        _ => Some(stack.push(c)),
    }
}

/// The components left after resolving `cs` from the left; `None` when a
/// `..` has nothing to remove.
pub open spec fn resolve(cs: Seq<Component>) -> Option<Seq<Component>>
    decreases cs.len(),
{
    if cs.len() == 0 {
        Some(Seq::empty())
    } else {
        match resolve(cs.drop_last()) {
            None => None,
            Some(st) => resolve_step(st, cs.last()),
        }
    }
}

/// Where `p` leads, with `.` and `..` resolved lexically.
pub open spec fn normalized(p: Seq<char>) -> Option<Seq<Component>> {
    resolve(components(p))
}

/// `base` is a prefix of `p` once both are resolved, counting whole
/// components; never when either climbs above its start.
pub open spec fn path_within(p: Seq<char>, base: Seq<char>) -> bool {
    match (normalized(p), normalized(base)) {
        (Some(np), Some(nb)) => nb.len() <= np.len() && np.subrange(0, nb.len() as int) == nb,
        _ => false,
    }
}

/// A `..` that cannot be resolved spoils every longer path.
proof fn lemma_resolve_none_extends(cs: Seq<Component>, k: int)
    requires
        0 <= k <= cs.len(),
        resolve(cs.take(k)) is None,
    ensures
        resolve(cs) is None,
    decreases cs.len(),
{
    if k == cs.len() {
        assert(cs.take(k) =~= cs);
    } else {
        assert(cs.drop_last().take(k) =~= cs.take(k));
        lemma_resolve_none_extends(cs.drop_last(), k);
    }
}

/// An executable path component.
pub enum PathComponent {
    RootDir,
    CurDir,
    ParentDir,
    Normal(String),
}

impl PathComponent {
    pub open spec fn view(&self) -> Component {
        match self {
            PathComponent::RootDir => Component::Root,
            PathComponent::CurDir => Component::Cur,
            PathComponent::ParentDir => Component::Parent,
            PathComponent::Normal(s) => Component::Normal(s@),
        }
    }
}

/// The views of a list of executable components.
pub open spec fn components_view(v: Seq<PathComponent>) -> Seq<Component> {
    Seq::new(v.len(), |i: int| v[i].view())
}

proof fn lemma_split_nonempty(p: Seq<char>)
    ensures
        split_slash(p).len() >= 1,
    decreases p.len(),
{
    if p.len() > 0 {
        lemma_split_nonempty(p.drop_last());
    }
}

/// Flushes a finished piece into the component list.
fn flush_part(out: &mut Vec<PathComponent>, part: &Vec<char>)
    ensures
        components_view(final(out)@) == if is_skipped(part@) {
            components_view(old(out)@)
        } else {
            components_view(old(out)@).push(part_component(part@))
        },
{
    let n = part.len();
    if n == 0 {
        return;
    }
    if n == 1 && part[0] == '.' {
        assert(part@ =~= seq!['.']);
        return;
    }
    assert(!is_skipped(part@)) by {
        if part@ == seq!['.'] {
            assert(part@[0] == '.');
        }
    }
    let ghost before = components_view(out@);
    if n == 2 && part[0] == '.' && part[1] == '.' {
        assert(part@ =~= seq!['.', '.']);
        out.push(PathComponent::ParentDir);
    } else {
        assert(part@ != seq!['.', '.']) by {
            if part@ == seq!['.', '.'] {
                assert(part@.len() == 2 && part@[0] == '.' && part@[1] == '.');
            }
        }
        let mut s = String::new();
        let mut i: usize = 0;
        while i < n
            invariant
                n == part@.len(),
                i <= n,
                s@ == part@.subrange(0, i as int),
            decreases n - i,
        {
            push_char(&mut s, part[i]);
            i = i + 1;
            assert(s@ =~= part@.subrange(0, i as int));
        }
        assert(s@ =~= part@);
        out.push(PathComponent::Normal(s));
    }
    assert(components_view(out@) =~= before.push(part_component(part@)));
}

/// The components of a path, as `std::path::Path::components` yields them on Unix.
pub fn components_of(p: &str) -> (r: Vec<PathComponent>)
    ensures
        components_view(r@) == components(p@),
{
    let cs = chars_of(p);
    let n = cs.len();
    let mut out: Vec<PathComponent> = Vec::new();
    let ghost head: Seq<Component>;
    if n > 0 && cs[0] == '/' {
        out.push(PathComponent::RootDir);
        proof { head = seq![Component::Root]; }
    } else if n > 0 && cs[0] == '.' && (n == 1 || cs[1] == '/') {
        out.push(PathComponent::CurDir);
        proof { head = seq![Component::Cur]; }
    } else {
        proof { head = Seq::empty(); }
    }
    assert(components_view(out@) =~= head);
    let ghost mut done: Seq<Seq<char>> = Seq::empty();
    let mut cur: Vec<char> = Vec::new();
    let mut i: usize = 0;
    assert(p@.take(0) =~= Seq::<char>::empty());
    while i < n
        invariant
            cs@ == p@,
            n == cs@.len(),
            i <= n,
            split_slash(p@.take(i as int)) == done.push(cur@),
            components_view(out@) == head + body_components(done),
        decreases n - i,
    {
        let c = cs[i];
        assert(p@.take(i + 1).drop_last() =~= p@.take(i as int));
        assert(p@.take(i + 1).last() == c);
        if c == '/' {
            flush_part(&mut out, &cur);
            proof {
                assert(done.push(cur@).drop_last() =~= done);
                assert(body_components(done.push(cur@)) == if is_skipped(cur@) {
                    body_components(done)
                } else {
                    body_components(done).push(part_component(cur@))
                });
                if !is_skipped(cur@) {
                    assert(head + body_components(done).push(part_component(cur@))
                        =~= (head + body_components(done)).push(part_component(cur@)));
                }
                done = done.push(cur@);
            }
            cur = Vec::new();
        } else {
            let ghost old_cur = cur@;
            cur.push(c);
            proof {
                let s = done.push(old_cur);
                assert(s.update(s.len() - 1, s.last().push(c)) =~= done.push(cur@));
            }
        }
        i = i + 1;
    }
    assert(p@.take(n as int) =~= p@);
    let ghost before = components_view(out@);
    flush_part(&mut out, &cur);
    proof {
        assert(done.push(cur@).drop_last() =~= done);
        if !is_skipped(cur@) {
            assert(head + body_components(done).push(part_component(cur@))
                =~= (head + body_components(done)).push(part_component(cur@)));
        }
    }
    out
}

/// Equality of two components.
fn component_eq(a: &PathComponent, b: &PathComponent) -> (r: bool)
    ensures
        r == (a.view() == b.view()),
{
    match (a, b) {
        (PathComponent::RootDir, PathComponent::RootDir) => true,
        (PathComponent::CurDir, PathComponent::CurDir) => true,
        (PathComponent::ParentDir, PathComponent::ParentDir) => true,
        (PathComponent::Normal(x), PathComponent::Normal(y)) => str_eq(x.as_str(), y.as_str()),
        _ => false,
    }
}

/// `base` is a prefix of `p`, counting whole components only
/// (as `std::path::Path::starts_with`).
pub fn starts_with(p: &str, base: &str) -> (r: bool)
    ensures
        r == path_starts_with(p@, base@),
{
    let cp = components_of(p);
    let cb = components_of(base);
    let ghost vp = components_view(cp@);
    let ghost vb = components_view(cb@);
    if cb.len() > cp.len() {
        return false;
    }
    let mut i: usize = 0;
    while i < cb.len()
        invariant
            vp == components_view(cp@),
            vb == components_view(cb@),
            vp == components(p@),
            vb == components(base@),
            cb@.len() <= cp@.len(),
            i <= cb@.len(),
            forall|j: int| 0 <= j < i ==> vp[j] == vb[j],
        decreases cb@.len() - i,
    {
        assert(vp[i as int] == cp@[i as int].view());
        assert(vb[i as int] == cb@[i as int].view());
        if !component_eq(&cp[i], &cb[i]) {
            assert(cp@[i as int].view() != cb@[i as int].view());
            assert(vp[i as int] != vb[i as int]);
            assert(vp.subrange(0, vb.len() as int)[i as int] != vb[i as int]);
            assert(vp.subrange(0, vb.len() as int) != vb);
            return false;
        }
        i = i + 1;
    }
    assert(vp.subrange(0, vb.len() as int) =~= vb);
    true
}

/// `true` when `p` starts at the root.
pub fn is_absolute(p: &str) -> (r: bool)
    ensures
        r == has_root(p@),
{
    let cs = chars_of(p);
    cs.len() > 0 && cs[0] == '/'
}

/// `base` joined with `rel` (as `std::path::Path::join`).
pub fn join(base: &str, rel: &str) -> (r: String)
    ensures
        r@ == path_join(base@, rel@),
{
    if is_absolute(rel) {
        return rel.to_owned();
    }
    let bc = chars_of(base);
    if bc.len() > 0 && bc[bc.len() - 1] != '/' {
        let mut s = base.to_owned();
        push_char(&mut s, '/');
        s.append(rel);
        s
    } else {
        concat(base, rel)
    }
}

/// The final component of `p` when it is a normal one
/// (as `std::path::Path::file_name`).
pub fn file_name(p: &str) -> (r: Option<String>)
    ensures
        match r {
            Some(f) => path_file_name(p@) == Some(f@),
            None => path_file_name(p@) is None,
        },
{
    let cs = components_of(p);
    let ghost v = components_view(cs@);
    if cs.len() == 0 {
        return None;
    }
    let last = cs.len() - 1;
    assert(v.last() == cs@[last as int].view());
    match &cs[last] {
        PathComponent::Normal(s) => Some(s.clone()),
        _ => None,
    }
}

/// The position of the last `.` of `cs`, if any.
fn last_dot_exec(cs: &Vec<char>) -> (r: Option<usize>)
    ensures
        match r {
            Some(k) => k < cs@.len() && k as int == last_dot(cs@),
            None => last_dot(cs@) == -1,
        },
{
    let mut i: usize = cs.len();
    assert(cs@.subrange(0, i as int) =~= cs@);
    while i > 0
        invariant
            i <= cs@.len(),
            last_dot(cs@.subrange(0, i as int)) == last_dot(cs@),
        decreases i,
    {
        let ghost pre = cs@.subrange(0, i as int);
        assert(pre.drop_last() =~= cs@.subrange(0, i - 1));
        assert(pre.last() == cs@[i - 1]);
        if cs[i - 1] == '.' {
            return Some(i - 1);
        }
        i = i - 1;
    }
    None
}

/// The extension of the file name of `p` (as `std::path::Path::extension`).
pub fn extension(p: &str) -> (r: Option<String>)
    ensures
        match r {
            Some(e) => path_extension(p@) == Some(e@),
            None => path_extension(p@) is None,
        },
{
    match file_name(p) {
        None => None,
        Some(f) => {
            let cs = chars_of(f.as_str());
            let n = cs.len();
            match last_dot_exec(&cs) {
                Some(k) => {
                    if k > 0 {
                        Some(crate::text::slice_string(cs.as_slice(), k + 1, n))
                    } else {
                        None
                    }
                },
                None => None,
            }
        },
    }
}

/// Whether the file name of `p` has the extension `ext`.
pub fn has_extension(p: &str, ext: &str) -> (r: bool)
    ensures
        r == (path_extension(p@) == Some(ext@)),
{
    match extension(p) {
        Some(e) => str_eq(e.as_str(), ext),
        None => false,
    }
}

/// The components of `p` with `.` and `..` resolved lexically; `None` when
/// a `..` climbs above the root or the start of a relative path.
pub fn normalized_components(p: &str) -> (r: Option<Vec<PathComponent>>)
    ensures
        match r {
            Some(v) => normalized(p@) == Some(components_view(v@)),
            None => normalized(p@) is None,
        },
{
    let cs = components_of(p);
    let ghost cv = components_view(cs@);
    let mut stack: Vec<PathComponent> = Vec::new();
    let mut i: usize = 0;
    assert(cv.take(0) =~= Seq::<Component>::empty());
    assert(components_view(stack@) =~= Seq::<Component>::empty());
    while i < cs.len()
        invariant
            cv == components_view(cs@),
            cv == components(p@),
            i <= cs@.len(),
            resolve(cv.take(i as int)) == Some(components_view(stack@)),
        decreases cs@.len() - i,
    {
        let ghost before = components_view(stack@);
        assert(cv.take(i + 1).drop_last() =~= cv.take(i as int));
        assert(cv.take(i + 1).last() == cs@[i as int].view());
        match &cs[i] {
            PathComponent::CurDir => {},
            PathComponent::ParentDir => {
                let n = stack.len();
                let removable = n > 0 && match &stack[n - 1] {
                    PathComponent::Normal(_) => true,
                    _ => false,
                };
                if !removable {
                    proof {
                        assert(n > 0 ==> before.last() == stack@[n - 1].view());
                        assert(resolve(cv.take(i + 1)) is None);
                        lemma_resolve_none_extends(cv, i + 1);
                    }
                    return None;
                }
                assert(before.last() == stack@[n - 1].view());
                stack.pop();
                assert(components_view(stack@) =~= before.drop_last());
            },
            PathComponent::RootDir => {
                stack.push(PathComponent::RootDir);
                assert(components_view(stack@) =~= before.push(Component::Root));
            },
            PathComponent::Normal(name) => {
                let owned = crate::text::to_owned_string(name.as_str());
                stack.push(PathComponent::Normal(owned));
                assert(components_view(stack@) =~= before.push(cs@[i as int].view()));
            },
        }
        i = i + 1;
    }
    assert(cv.take(cs@.len() as int) =~= cv);
    Some(stack)
}

/// Whether `base` is a prefix of `p` once both are resolved lexically,
/// counting whole components; `false` when either climbs above its start.
pub fn lexically_within(p: &str, base: &str) -> (r: bool)
    ensures
        r == path_within(p@, base@),
{
    let np = match normalized_components(p) {
        Some(v) => v,
        None => return false,
    };
    let nb = match normalized_components(base) {
        Some(v) => v,
        None => return false,
    };
    let ghost vp = components_view(np@);
    let ghost vb = components_view(nb@);
    if nb.len() > np.len() {
        return false;
    }
    let mut i: usize = 0;
    while i < nb.len()
        invariant
            vp == components_view(np@),
            vb == components_view(nb@),
            normalized(p@) == Some(vp),
            normalized(base@) == Some(vb),
            nb@.len() <= np@.len(),
            i <= nb@.len(),
            forall|j: int| 0 <= j < i ==> vp[j] == vb[j],
        decreases nb@.len() - i,
    {
        assert(vp[i as int] == np@[i as int].view());
        assert(vb[i as int] == nb@[i as int].view());
        if !component_eq(&np[i], &nb[i]) {
            assert(vp.subrange(0, vb.len() as int)[i as int] != vb[i as int]);
            return false;
        }
        i = i + 1;
    }
    assert(vp.subrange(0, vb.len() as int) =~= vb);
    true
}

} // verus!

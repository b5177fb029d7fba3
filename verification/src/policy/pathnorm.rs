//! Lexical path normalization.
//!
//! The denylist matches paths; an action must not evade it by spelling a
//! protected path as `/etc/archangel/../archangel/config`, `/etc//archangel`
//! or `/etc/./archangel`. This module collapses those forms to one canonical
//! lexical representation *before* matching. It is lexical only: symlinks
//! are the sandbox's concern.

use vstd::prelude::*;

use crate::policy::error::PolicyError;
use crate::text::{chars_of, has_char, lemma_split_on_nonempty, owned, split_chars, split_on, string_of};

verus! {

/// Applies one path component to the stack of resolved components: empty
/// and `.` components vanish, `..` pops (never above the root), anything
/// else is pushed.
pub open spec fn step(stack: Seq<Seq<char>>, c: Seq<char>) -> Seq<Seq<char>> {
    if c.len() == 0 || c == seq!['.'] {
        stack
    } else if c == seq!['.', '.'] {
        if stack.len() > 0 {
            stack.drop_last()
        } else {
            stack
        }
    } else {
        stack.push(c)
    }
}

/// Resolves a list of components left to right with [`step`].
pub open spec fn resolve(comps: Seq<Seq<char>>) -> Seq<Seq<char>>
    decreases comps.len(),
{
    if comps.len() == 0 {
        Seq::empty()
    } else {
        step(resolve(comps.drop_last()), comps.last())
    }
}

/// `/c1/c2/…/cn` for a non-empty stack.
pub open spec fn join(stack: Seq<Seq<char>>) -> Seq<char>
    decreases stack.len(),
{
    if stack.len() == 0 {
        Seq::empty()
    } else {
        join(stack.drop_last()).push('/') + stack.last()
    }
}

/// The canonical rendering of a resolved stack: `/` for the root.
pub open spec fn render(stack: Seq<Seq<char>>) -> Seq<char> {
    if stack.len() == 0 {
        seq!['/']
    } else {
        join(stack)
    }
}

/// The path can be normalized: it is absolute and holds no NUL.
pub open spec fn normalizable(path: Seq<char>) -> bool {
    path.len() > 0 && path[0] == '/' && !path.contains('\0')
}

/// The canonical lexical form of an absolute path.
pub open spec fn normalized(path: Seq<char>) -> Seq<char> {
    render(resolve(split_on(path, '/')))
}

/// A component that survives normalization: non-empty, not `.` or `..`, no `/`.
pub open spec fn clean_component(c: Seq<char>) -> bool {
    c.len() > 0 && c != seq!['.'] && c != seq!['.', '.'] && !c.contains('/')
}

/// Every component of a stack is clean.
pub open spec fn clean_stack(stack: Seq<Seq<char>>) -> bool {
    forall|i: int| 0 <= i < stack.len() ==> clean_component(#[trigger] stack[i])
}

/// Normalize an absolute path lexically into canonical form.
///
/// - not absolute ⇒ `BadPath` (fail-closed);
/// - an embedded NUL ⇒ `BadPath`;
/// - `//` runs and `.` components are removed;
/// - `..` pops the previous component, never escaping above `/`;
/// - no trailing slash is kept, except for the root `/` itself.
pub fn normalize_absolute(path: &str) -> (r: Result<String, PolicyError>)
    ensures
        r is Ok <==> normalizable(path@),
        r matches Ok(s) ==> s@ == normalized(path@),
        r matches Err(e) ==> e is BadPath,
{
    let p = chars_of(path);
    if p.len() == 0 || p[0] != '/' {
        let mut msg = chars_of("path is not absolute: ");
        msg.append(&mut p.clone());
        return Err(PolicyError::BadPath(string_of(msg.as_slice())));
    }
    if has_char(p.as_slice(), '\0') {
        return Err(PolicyError::BadPath(owned("path contains an embedded NUL")));
    }
    let comps = split_chars(p.as_slice(), '/');
    let mut stack: Vec<Vec<char>> = Vec::new();
    let mut i: usize = 0;
    while i < comps.len()
        invariant
            i <= comps@.len(),
            comps@.len() == split_on(p@, '/').len(),
            forall|j: int| 0 <= j < comps@.len() ==> #[trigger] comps@[j]@ == split_on(p@, '/')[j],
            stack@.len() == resolve(split_on(p@, '/').take(i as int)).len(),
            forall|j: int|
                0 <= j < stack@.len() ==> #[trigger] stack@[j]@ == resolve(
                    split_on(p@, '/').take(i as int),
                )[j],
        decreases comps.len() - i,
    {
        let ghost parts = split_on(p@, '/');
        assert(parts.take(i + 1).drop_last() =~= parts.take(i as int));
        let c = &comps[i];
        let dot = c.len() == 1 && c[0] == '.';
        let dotdot = c.len() == 2 && c[0] == '.' && c[1] == '.';
        proof {
            if c@.len() == 1 {
                assert(dot == (c@ == seq!['.'])) by {
                    if c@[0] == '.' {
                        assert(c@ =~= seq!['.']);
                    }
                }
            }
            if c@.len() == 2 {
                assert(dotdot == (c@ == seq!['.', '.'])) by {
                    if c@[0] == '.' && c@[1] == '.' {
                        assert(c@ =~= seq!['.', '.']);
                    }
                }
            }
        }
        if c.len() == 0 || dot {
        } else if dotdot {
            if stack.len() > 0 {
                stack.pop();
            }
        } else {
            stack.push(c.clone());
        }
        i = i + 1;
    }
    assert(split_on(p@, '/').take(comps@.len() as int) =~= split_on(p@, '/'));
    let ghost res = resolve(split_on(p@, '/'));
    if stack.len() == 0 {
        assert(normalized(p@) =~= seq!['/']);
        proof {
            reveal_strlit("/");
        }
        return Ok(owned("/"));
    }
    let mut out: Vec<char> = Vec::new();
    let mut k: usize = 0;
    while k < stack.len()
        invariant
            k <= stack@.len(),
            stack@.len() == res.len(),
            forall|j: int| 0 <= j < stack@.len() ==> #[trigger] stack@[j]@ == res[j],
            out@ == join(res.take(k as int)),
        decreases stack.len() - k,
    {
        out.push('/');
        let mut comp = stack[k].clone();
        out.append(&mut comp);
        k = k + 1;
        assert(res.take(k as int).drop_last() =~= res.take(k - 1));
    }
    assert(res.take(stack@.len() as int) =~= res);
    Ok(string_of(out.as_slice()))
}

// ── laws ────────────────────────────────────────────────────────────────────
/// Appending delimiter-free text extends the last piece of a split.
proof fn lemma_split_append(a: Seq<char>, c: Seq<char>, d: char)
    requires
        !c.contains(d),
    ensures
        split_on(a + c, d) == split_on(a, d).update(
            split_on(a, d).len() - 1,
            split_on(a, d).last() + c,
        ),
    decreases c.len(),
{
    lemma_split_on_nonempty(a, d);
    if c.len() == 0 {
        assert(a + c =~= a);
        assert(split_on(a, d).last() + c =~= split_on(a, d).last());
        assert(split_on(a, d).update(split_on(a, d).len() - 1, split_on(a, d).last())
            =~= split_on(a, d));
    } else {
        let c0 = c.drop_last();
        assert(!c0.contains(d)) by {
            if c0.contains(d) {
                let k = choose|k: int| 0 <= k < c0.len() && c0[k] == d;
                assert(c[k] == d);
            }
        }
        lemma_split_append(a, c0, d);
        assert((a + c).drop_last() =~= a + c0);
        assert(c.last() != d) by {
            assert(c[c.len() - 1] == c.last());
        }
        lemma_split_on_nonempty(a + c0, d);
        assert(split_on(a, d).last() + c0 + seq![c.last()] =~= split_on(a, d).last() + c);
        assert((split_on(a, d).last() + c0).push(c.last()) =~= split_on(a, d).last() + c);
        assert(split_on(a + c, d) =~= split_on(a, d).update(
            split_on(a, d).len() - 1,
            split_on(a, d).last() + c,
        ));
    }
}

/// Splitting the rendering of a clean stack gives back its components,
/// after the empty piece before the leading `/`.
proof fn lemma_split_join(stack: Seq<Seq<char>>)
    requires
        clean_stack(stack),
    ensures
        split_on(join(stack), '/') == seq![Seq::<char>::empty()] + stack,
    decreases stack.len(),
{
    if stack.len() == 0 {
        assert(split_on(Seq::<char>::empty(), '/') =~= seq![Seq::<char>::empty()]);
        assert(seq![Seq::<char>::empty()] + stack =~= seq![Seq::<char>::empty()]);
    } else {
        let init = stack.drop_last();
        let last = stack.last();
        assert(clean_stack(init)) by {
            assert forall|i: int| 0 <= i < init.len() implies clean_component(#[trigger] init[i]) by {
                assert(init[i] == stack[i]);
            }
        }
        assert(clean_component(last)) by {
            assert(stack[stack.len() - 1] == last);
        }
        lemma_split_join(init);
        let base = join(init).push('/');
        assert(base.drop_last() =~= join(init));
        assert(split_on(base, '/') == split_on(join(init), '/').push(Seq::<char>::empty()));
        lemma_split_append(base, last, '/');
        assert(Seq::<char>::empty() + last =~= last);
        assert(split_on(join(stack), '/') =~= seq![Seq::<char>::empty()] + stack);
    }
}

/// Resolving the pieces of a clean rendering gives back the clean stack.
proof fn lemma_resolve_clean(stack: Seq<Seq<char>>)
    requires
        clean_stack(stack),
    ensures
        resolve(seq![Seq::<char>::empty()] + stack) == stack,
    decreases stack.len(),
{
    let e = Seq::<char>::empty();
    if stack.len() == 0 {
        assert(seq![e] + stack =~= seq![e]);
        assert(seq![e].drop_last() =~= Seq::<Seq<char>>::empty());
        assert(resolve(Seq::<Seq<char>>::empty()) =~= Seq::<Seq<char>>::empty());
        assert(seq![e].last() == e);
    } else {
        let init = stack.drop_last();
        assert(clean_stack(init)) by {
            assert forall|i: int| 0 <= i < init.len() implies clean_component(#[trigger] init[i]) by {
                assert(init[i] == stack[i]);
            }
        }
        assert(clean_component(stack.last())) by {
            assert(stack[stack.len() - 1] == stack.last());
        }
        lemma_resolve_clean(init);
        assert((seq![e] + stack).drop_last() =~= seq![e] + init);
        assert((seq![e] + stack).last() == stack.last());
        let last = stack.last();
        assert(last.len() > 0 && last != seq!['.'] && last != seq!['.', '.']);
        assert(step(init, last) == init.push(last));
        assert(init.push(stack.last()) =~= stack);
    }
}

/// Pieces of a split never contain the delimiter, and every character of a
/// piece occurs in the split text.
proof fn lemma_split_pieces(s: Seq<char>, d: char)
    ensures
        forall|i: int|
            0 <= i < split_on(s, d).len() ==> !(#[trigger] split_on(s, d)[i]).contains(d),
        forall|i: int, x: char|
            0 <= i < split_on(s, d).len() && #[trigger] split_on(s, d)[i].contains(x)
                ==> s.contains(x),
    decreases s.len(),
{
    if s.len() > 0 {
        let t = s.drop_last();
        lemma_split_pieces(t, d);
        lemma_split_on_nonempty(t, d);
        let rest = split_on(t, d);
        assert forall|i: int| 0 <= i < split_on(s, d).len() implies !(#[trigger] split_on(
            s,
            d,
        )[i]).contains(d) by {
            if s.last() != d && i == rest.len() - 1 {
                let piece = rest.last().push(s.last());
                if piece.contains(d) {
                    let k = choose|k: int| 0 <= k < piece.len() && piece[k] == d;
                    if k < rest.last().len() {
                        assert(rest[rest.len() - 1][k] == d);
                    }
                }
            }
        }
        assert forall|i: int, x: char|
            0 <= i < split_on(s, d).len() && #[trigger] split_on(s, d)[i].contains(x)
                implies s.contains(x) by {
            if s.last() != d && i == rest.len() - 1 {
                let piece = rest.last().push(s.last());
                let k = choose|k: int| 0 <= k < piece.len() && piece[k] == x;
                if k < rest.last().len() {
                    assert(rest[rest.len() - 1].contains(x));
                    let m = choose|m: int| 0 <= m < t.len() && t[m] == x;
                    assert(s[m] == x);
                } else {
                    assert(s[s.len() - 1] == x);
                }
            } else if i < rest.len() {
                assert(split_on(s, d)[i] == rest[i]);
                let m = choose|m: int| 0 <= m < t.len() && t[m] == x;
                assert(s[m] == x);
            }
        }
    }
}

/// Every component that `resolve` keeps was one of its inputs and is clean.
proof fn lemma_resolve_members(comps: Seq<Seq<char>>)
    ensures
        forall|i: int|
            0 <= i < resolve(comps).len() ==> exists|j: int|
                0 <= j < comps.len() && comps[j] == #[trigger] resolve(comps)[i],
        forall|i: int|
            0 <= i < resolve(comps).len() ==> (#[trigger] resolve(comps)[i]).len() > 0
                && resolve(comps)[i] != seq!['.'] && resolve(comps)[i] != seq!['.', '.'],
    decreases comps.len(),
{
    if comps.len() > 0 {
        let init = comps.drop_last();
        lemma_resolve_members(init);
        let r0 = resolve(init);
        assert forall|i: int| 0 <= i < resolve(comps).len() implies exists|j: int|
            0 <= j < comps.len() && comps[j] == #[trigger] resolve(comps)[i] by {
            if i < r0.len() && resolve(comps)[i] == r0[i] {
                let j = choose|j: int| 0 <= j < init.len() && init[j] == r0[i];
                assert(comps[j] == init[j]);
            } else {
                assert(comps[comps.len() - 1] == resolve(comps)[i]);
            }
        }
    }
}

/// The canonical form of an absolute path is made of clean components:
/// never empty, `.` or `..`, and never holding `/`.
pub proof fn lemma_normalized_clean(path: Seq<char>)
    ensures
        clean_stack(resolve(split_on(path, '/'))),
{
    let comps = split_on(path, '/');
    lemma_split_pieces(path, '/');
    lemma_resolve_members(comps);
    assert forall|i: int| 0 <= i < resolve(comps).len() implies clean_component(
        #[trigger] resolve(comps)[i],
    ) by {
        let j = choose|j: int| 0 <= j < comps.len() && comps[j] == resolve(comps)[i];
        assert(!comps[j].contains('/'));
    }
}

proof fn lemma_join_chars(stack: Seq<Seq<char>>, x: char)
    requires
        x != '/',
        join(stack).contains(x),
    ensures
        exists|i: int| 0 <= i < stack.len() && (#[trigger] stack[i]).contains(x),
    decreases stack.len(),
{
    let init = stack.drop_last();
    let last = stack.last();
    let k = choose|k: int| 0 <= k < join(stack).len() && join(stack)[k] == x;
    let base = join(init).push('/');
    if k < base.len() {
        assert(base[k] == x);
        assert(k < join(init).len());
        assert(join(init)[k] == x);
        lemma_join_chars(init, x);
        let i = choose|i: int| 0 <= i < init.len() && (#[trigger] init[i]).contains(x);
        assert(stack[i] == init[i]);
    } else {
        assert(last[k - base.len()] == x);
        assert(stack[stack.len() - 1].contains(x));
    }
}

/// The canonical form starts with `/`.
proof fn lemma_join_starts(stack: Seq<Seq<char>>)
    requires
        stack.len() > 0,
    ensures
        join(stack).len() > 0 && join(stack)[0] == '/',
    decreases stack.len(),
{
    let init = stack.drop_last();
    let base = join(init).push('/');
    if stack.len() > 1 {
        lemma_join_starts(init);
        assert(base[0] == '/');
    } else {
        assert(init.len() == 0);
        assert(join(init) =~= Seq::<char>::empty());
        assert(base[0] == '/');
    }
    assert((base + stack.last())[0] == base[0]);
}

/// Normalization is idempotent: the canonical form of an accepted path is
/// itself accepted, absolute, and already canonical.
pub proof fn lemma_normalize_idempotent(path: Seq<char>)
    requires
        normalizable(path),
    ensures
        normalizable(normalized(path)),
        normalized(normalized(path)) == normalized(path),
{
    let stack = resolve(split_on(path, '/'));
    lemma_normalized_clean(path);
    lemma_split_pieces(path, '/');
    lemma_resolve_members(split_on(path, '/'));
    if stack.len() == 0 {
        let root = seq!['/'];
        assert(root.drop_last() =~= Seq::<char>::empty());
        assert(split_on(Seq::<char>::empty(), '/') =~= seq![Seq::<char>::empty()]);
        assert(root.last() == '/');
        assert(split_on(root, '/') =~= seq![Seq::<char>::empty(), Seq::<char>::empty()]);
        assert(seq![Seq::<char>::empty(), Seq::<char>::empty()].drop_last() =~= seq![
            Seq::<char>::empty(),
        ]);
        assert(seq![Seq::<char>::empty()].drop_last() =~= Seq::<Seq<char>>::empty());
        assert(resolve(Seq::<Seq<char>>::empty()) =~= Seq::<Seq<char>>::empty());
        assert(resolve(seq![Seq::<char>::empty()]) =~= Seq::<Seq<char>>::empty());
        assert(resolve(seq![Seq::<char>::empty(), Seq::<char>::empty()])
            =~= Seq::<Seq<char>>::empty());
        assert(normalized(path) =~= root);
        assert(!root.contains('\0')) by {
            if root.contains('\0') {
                let k = choose|k: int| 0 <= k < root.len() && root[k] == '\0';
                assert(root[k] == '/');
            }
        }
    } else {
        let out = join(stack);
        lemma_join_starts(stack);
        assert(!out.contains('\0')) by {
            if out.contains('\0') {
                lemma_join_chars(stack, '\0');
                let i = choose|i: int| 0 <= i < stack.len() && (#[trigger] stack[i]).contains(
                    '\0',
                );
                let j = choose|j: int|
                    0 <= j < split_on(path, '/').len() && split_on(path, '/')[j] == stack[i];
                assert(split_on(path, '/')[j].contains('\0'));
            }
        }
        lemma_split_join(stack);
        lemma_resolve_clean(stack);
        assert(normalized(path) == out);
        assert(resolve(split_on(out, '/')) == stack);
    }
}

} // verus!

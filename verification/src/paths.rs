//! Filesystem paths under a root, joined as text.
//!
//! A root and a `/`-separated relative path are held as plain text; the
//! library joins them and the embedding program turns the result into a
//! filesystem path.

use vstd::prelude::*;
use crate::text::{chars_of, string_from_chars};

verus! {

/// A filesystem path (`std::path::PathBuf`).
#[verifier::external_type_specification]
#[verifier::external_body]
pub struct ExPathBuf(std::path::PathBuf);

/// `path` with one component pushed: nothing for an empty or `.`
/// component, otherwise the component after a `/`, which is left out when
/// `path` is empty or already ends in one.
pub open spec fn push_component(path: Seq<char>, component: Seq<char>) -> Seq<char> {
    if component.len() == 0 || component == seq!['.'] {
        path
    } else if path.len() == 0 || path.last() == '/' {
        path + component
    } else {
        path + seq!['/'] + component
    }
}

/// `path` with the rest of a relative path pushed, `current` being the part
/// of the component read so far.
pub open spec fn push_rest(path: Seq<char>, current: Seq<char>, rest: Seq<char>) -> Seq<char>
    decreases rest.len(),
{
    if rest.len() == 0 {
        push_component(path, current)
    } else if rest[0] == '/' {
        push_rest(push_component(path, current), Seq::empty(), rest.drop_first())
    } else {
        push_rest(path, current.push(rest[0]), rest.drop_first())
    }
}

/// `root` with each component of the `/`-separated `relative` pushed in
/// turn; empty and `.` components name nothing.
pub open spec fn joined(root: Seq<char>, relative: Seq<char>) -> Seq<char> {
    push_rest(root, Seq::empty(), relative)
}

fn push_component_exec(path: &mut Vec<char>, component: &Vec<char>)
    ensures
        final(path)@ == push_component(old(path)@, component@),
{
    if component.len() == 0 {
        return;
    }
    if component.len() == 1 && component[0] == '.' {
        assert(component@ =~= seq!['.']);
        return;
    }
    assert(seq!['.'].len() == 1 && seq!['.'][0] == '.');
    assert(component@ != seq!['.']);
    if path.len() > 0 && path[path.len() - 1] != '/' {
        path.push('/');
    }
    let ghost before = path@;
    for k in 0..component.len()
        invariant
            path@ == before + component@.take(k as int),
    {
        path.push(component[k]);
        assert(component@.take(k as int + 1) == component@.take(k as int).push(component@[k as int]));
        assert(path@ =~= before + component@.take(k as int + 1));
    }
    assert(component@.take(component@.len() as int) =~= component@);
}

/// `root` joined with a `/`-separated relative path, component by
/// component.
pub fn join_relative(root: &str, relative: &str) -> (r: String)
    ensures
        r@ == joined(root@, relative@),
{
    let rel = chars_of(relative);
    let mut out = chars_of(root);
    let mut current: Vec<char> = Vec::new();
    assert(rel@.skip(0) =~= rel@);
    for i in 0..rel.len()
        invariant
            rel@ == relative@,
            joined(root@, relative@) == push_rest(out@, current@, rel@.skip(i as int)),
    {
        let ghost rest = rel@.skip(i as int);
        assert(rest.drop_first() =~= rel@.skip(i as int + 1));
        if rel[i] == '/' {
            push_component_exec(&mut out, &current);
            current = Vec::new();
            assert(current@ =~= Seq::<char>::empty());
        } else {
            current.push(rel[i]);
        }
    }
    assert(rel@.skip(rel@.len() as int) =~= Seq::<char>::empty());
    push_component_exec(&mut out, &current);
    string_from_chars(&out)
}

} // verus!

//! Checks a destination path must pass before a mutation session writes
//! through it: it stays inside the root, no symlink redirects it, and no
//! earlier request of the same transfer named it.

use vstd::prelude::*;
use crate::error::ServerError;
use crate::text::{copy_bytes, push_str, utf8_lossy};
use crate::wire_path::{is_valid_wire_path, valid_wire_path, WirePath, WirePathError};

verus! {

/// Whether two byte strings are equal.
pub fn bytes_equal(a: &[u8], b: &[u8]) -> (r: bool)
    ensures
        r <==> a@ == b@,
{
    if a.len() != b.len() {
        return false;
    }
    let mut i: usize = 0;
    while i < a.len()
        invariant
            a@.len() == b@.len(),
            i <= a@.len(),
            forall|k: int| 0 <= k < i ==> a@[k] == b@[k],
        decreases a.len() - i,
    {
        if a[i] != b[i] {
            return false;
        }
        i = i + 1;
    }
    assert(a@ =~= b@);
    true
}

/// The destinations a transfer has already claimed.
pub struct SeenPaths {
    paths: Vec<Vec<u8>>,
}

impl View for SeenPaths {
    type V = Set<Seq<u8>>;

    closed spec fn view(&self) -> Set<Seq<u8>> {
        self.paths@.map_values(|p: Vec<u8>| p@).to_set()
    }
}

impl SeenPaths {
    /// No destination is recorded twice.
    pub closed spec fn wf(&self) -> bool {
        forall|i: int, j: int|
            0 <= i < j < self.paths@.len() ==> (#[trigger] self.paths@[i])@ != (#[trigger] self.paths@[j])@
    }

    /// An empty record.
    pub fn new() -> (r: SeenPaths)
        ensures
            r.wf(),
            r@ == Set::<Seq<u8>>::empty(),
    {
        let r = SeenPaths { paths: Vec::new() };
        assert(r@ =~= Set::<Seq<u8>>::empty());
        r
    }

    /// Whether a destination was claimed.
    pub fn contains(&self, path: &[u8]) -> (r: bool)
        ensures
            r <==> self@.contains(path@),
    {
        let ghost views = self.paths@.map_values(|p: Vec<u8>| p@);
        let mut k: usize = 0;
        while k < self.paths.len()
            invariant
                views == self.paths@.map_values(|p: Vec<u8>| p@),
                k <= self.paths@.len(),
                forall|m: int| 0 <= m < k ==> (#[trigger] views[m]) != path@,
            decreases self.paths.len() - k,
        {
            if bytes_equal(self.paths[k].as_slice(), path) {
                assert(views[k as int] == path@);
                assert(views.contains(path@));
                return true;
            }
            k = k + 1;
        }
        assert(!views.contains(path@));
        false
    }

    /// Claims a destination; `false` when it was already claimed, in which
    /// case nothing changes.
    pub fn insert(&mut self, path: &[u8]) -> (r: bool)
        requires
            old(self).wf(),
        ensures
            final(self).wf(),
            r <==> !old(self)@.contains(path@),
            final(self)@ == old(self)@.insert(path@),
    {
        if self.contains(path) {
            assert(self@.insert(path@) =~= self@);
            return false;
        }
        let owned = copy_bytes(path);
        let ghost before = self.paths@;
        self.paths.push(owned);
        proof {
            assert(self.paths@.map_values(|p: Vec<u8>| p@) =~= before.map_values(
                |p: Vec<u8>| p@,
            ).push(path@));
            assert forall|i: int, j: int| 0 <= i < j < self.paths@.len() implies (
            #[trigger] self.paths@[i])@ != (#[trigger] self.paths@[j])@ by {
                if j == before.len() {
                    assert(before.map_values(|p: Vec<u8>| p@)[i] == before[i]@);
                } else {
                    assert(before[i] == self.paths@[i]);
                    assert(before[j] == self.paths@[j]);
                }
            }
            before.map_values(|p: Vec<u8>| p@).lemma_push_to_set_commute(path@);
            assert(self@ =~= old(self)@.insert(path@));
        }
        true
    }
}

/// The number of `/`-separated components of a path.
pub open spec fn slash_count(s: Seq<u8>) -> nat
    decreases s.len(),
{
    if s.len() == 0 {
        0
    } else {
        slash_count(s.drop_last()) + if s.last() == 47u8 { 1nat } else { 0nat }
    }
}

fn count_slashes(s: &[u8]) -> (r: usize)
    ensures
        r == slash_count(s@),
{
    let mut n: usize = 0;
    let mut i: usize = 0;
    while i < s.len()
        invariant
            i <= s@.len(),
            n == slash_count(s@.take(i as int)),
            n <= i,
        decreases s.len() - i,
    {
        assert(s@.take(i as int + 1).drop_last() =~= s@.take(i as int));
        if s[i] == 47u8 {
            n = n + 1;
        }
        i = i + 1;
    }
    assert(s@.take(s@.len() as int) =~= s@);
    n
}

/// Whether an ancestor in the parent chain of a path with `components`
/// components is a symlink, given which ancestors are symlinks.
pub open spec fn redirected(components: nat, symlinked: Seq<bool>) -> bool {
    exists|i: int| 0 <= i < components - 1 && i < symlinked.len() && #[trigger] symlinked[i]
}

/// Validates one destination of a mutation session.
///
/// `symlinked[i]` says whether the root joined with the first `i + 1`
/// components of the path exists and is a symlink. The last component may be
/// one, since a mutation replaces it; any earlier one would redirect the
/// mutation and is refused, as are an unsafe path and the empty path.
pub fn validate_destination_path(path: &WirePath, symlinked: &[bool]) -> (r: Result<(), ServerError>)
    ensures
        !valid_wire_path(path@) ==> (r matches Err(e) && e is InvalidPath && e->InvalidPath_0@ == (
        "unsafe wire path '"@ + utf8_lossy(path@) + "'"@)),
        valid_wire_path(path@) && path@.len() == 0 ==> (r matches Err(e) && e is InvalidPath
            && e->InvalidPath_0@ == "empty path"@),
        valid_wire_path(path@) && path@.len() > 0 && redirected(slash_count(path@) + 1, symlinked@)
            ==> (r matches Err(e) && e is SymlinkEscape && e->SymlinkEscape_0@ == utf8_lossy(path@)),
        r is Ok <==> valid_wire_path(path@) && path@.len() > 0 && !redirected(
            slash_count(path@) + 1,
            symlinked@,
        ),
{
    let bytes = path.as_bytes();
    if !is_valid_wire_path(bytes) {
        let error = WirePathError { path: copy_bytes(bytes) };
        return Err(ServerError::InvalidPath(error.to_string()));
    }
    if path.is_empty() {
        let mut message = String::new();
        push_str(&mut message, "empty path");
        return Err(ServerError::InvalidPath(message));
    }
    let slashes = count_slashes(bytes);
    let ghost components = slash_count(path@) + 1;
    let mut i: usize = 0;
    while i < slashes && i < symlinked.len()
        invariant
            slashes == slash_count(path@),
            components == slash_count(path@) + 1,
            valid_wire_path(path@),
            path@.len() > 0,
            forall|k: int| 0 <= k < i ==> !(#[trigger] symlinked@[k]),
        decreases symlinked.len() - i,
    {
        if symlinked[i] {
            assert(redirected(components, symlinked@));
            return Err(ServerError::SymlinkEscape(path.to_string()));
        }
        i = i + 1;
    }
    proof {
        if redirected(components, symlinked@) {
            let w = choose|w: int| 0 <= w < components - 1 && w < symlinked@.len() && #[trigger] symlinked@[w];
            assert(!symlinked@[w]);
        }
    }
    Ok(())
}

/// Validates one destination of a mutation session, as
/// [`validate_destination_path`] does, and claims it: a destination already
/// claimed in this transfer is refused, and leaves the record unchanged.
pub fn validate_unique_destination_path(
    path: &WirePath,
    symlinked: &[bool],
    seen: &mut SeenPaths,
) -> (r: Result<(), ServerError>)
    requires
        old(seen).wf(),
    ensures
        final(seen).wf(),
        !valid_wire_path(path@) ==> (r matches Err(e) && e is InvalidPath && e->InvalidPath_0@ == (
        "unsafe wire path '"@ + utf8_lossy(path@) + "'"@)),
        valid_wire_path(path@) && path@.len() == 0 ==> (r matches Err(e) && e is InvalidPath
            && e->InvalidPath_0@ == "empty path"@),
        valid_wire_path(path@) && path@.len() > 0 && redirected(slash_count(path@) + 1, symlinked@)
            ==> (r matches Err(e) && e is SymlinkEscape && e->SymlinkEscape_0@ == utf8_lossy(path@)),
        valid_wire_path(path@) && path@.len() > 0 && !redirected(slash_count(path@) + 1, symlinked@)
            ==> if old(seen)@.contains(path@) {
            r matches Err(e) && e is DuplicatePath && e->DuplicatePath_0@ == utf8_lossy(path@)
        } else {
            r is Ok
        },
        r is Ok ==> final(seen)@ == old(seen)@.insert(path@),
        r is Err ==> final(seen)@ == old(seen)@,
{
    validate_destination_path(path, symlinked)?;
    if !seen.insert(path.as_bytes()) {
        return Err(ServerError::DuplicatePath(path.to_string()));
    }
    Ok(())
}

/// Whether one of the first `checked` ancestors of a path is a symlink.
pub open spec fn link_among(checked: int, symlinked: Seq<bool>) -> bool {
    exists|i: int| 0 <= i < checked && i < symlinked.len() && #[trigger] symlinked[i]
}

fn browse_path_check(path: &[u8], symlinked: &[bool], check_last: bool) -> (r: Result<WirePath, ServerError>)
    ensures
        !valid_wire_path(path@) ==> (r matches Err(e) && e is InvalidPath && e->InvalidPath_0@ == (
        "unsafe wire path '"@ + utf8_lossy(path@) + "'"@)),
        valid_wire_path(path@) && path@.len() == 0 ==> (r matches Ok(p) && p@ == path@),
        valid_wire_path(path@) && path@.len() > 0 ==> {
            let checked = if check_last { slash_count(path@) + 1int } else { slash_count(path@) as int };
            if link_among(checked, symlinked@) {
                r matches Err(e) && e is SymlinkEscape && e->SymlinkEscape_0@ == utf8_lossy(path@)
            } else {
                r matches Ok(p) && p@ == path@
            }
        },
{
    let relative = match WirePath::from_wire(copy_bytes(path)) {
        Ok(p) => p,
        Err(error) => {
            return Err(ServerError::InvalidPath(error.to_string()));
        },
    };
    if relative.is_empty() {
        return Ok(relative);
    }
    let slashes = count_slashes(path);
    let ghost checked = if check_last { slash_count(path@) + 1int } else { slash_count(path@) as int };
    let mut i: usize = 0;
    while i < symlinked.len() && (i < slashes || (check_last && i == slashes))
        invariant
            slashes == slash_count(path@),
            checked == (if check_last { slash_count(path@) + 1int } else { slash_count(path@) as int }),
            relative@ == path@,
            valid_wire_path(path@),
            path@.len() > 0,
            i <= checked,
            forall|k: int| 0 <= k < i ==> !(#[trigger] symlinked@[k]),
        decreases symlinked.len() - i,
    {
        if symlinked[i] {
            assert(link_among(checked, symlinked@));
            return Err(ServerError::SymlinkEscape(relative.to_string()));
        }
        i = i + 1;
    }
    proof {
        if link_among(checked, symlinked@) {
            let w = choose|w: int| 0 <= w < checked && w < symlinked@.len() && #[trigger] symlinked@[w];
            assert(!symlinked@[w]);
        }
    }
    Ok(relative)
}

/// The relative path a browse listing resolves, given which of its
/// ancestors, itself included, are symlinks (`symlinked[i]` for the first
/// `i + 1` components): none may be, so a listing never leaves the root.
/// The empty path names the root.
pub fn browse_directory_path(path: &[u8], symlinked: &[bool]) -> (r: Result<WirePath, ServerError>)
    ensures
        !valid_wire_path(path@) ==> (r matches Err(e) && e is InvalidPath && e->InvalidPath_0@ == (
        "unsafe wire path '"@ + utf8_lossy(path@) + "'"@)),
        valid_wire_path(path@) && path@.len() == 0 ==> (r matches Ok(p) && p@ == path@),
        valid_wire_path(path@) && path@.len() > 0 ==> if link_among(slash_count(path@) + 1int, symlinked@) {
            r matches Err(e) && e is SymlinkEscape && e->SymlinkEscape_0@ == utf8_lossy(path@)
        } else {
            r matches Ok(p) && p@ == path@
        },
{
    browse_path_check(path, symlinked, true)
}

/// The relative path a browse stat resolves: as for a listing, except that
/// the last component may be a symlink, which is reported rather than
/// followed.
pub fn browse_stat_path(path: &[u8], symlinked: &[bool]) -> (r: Result<WirePath, ServerError>)
    ensures
        !valid_wire_path(path@) ==> (r matches Err(e) && e is InvalidPath && e->InvalidPath_0@ == (
        "unsafe wire path '"@ + utf8_lossy(path@) + "'"@)),
        valid_wire_path(path@) && path@.len() == 0 ==> (r matches Ok(p) && p@ == path@),
        valid_wire_path(path@) && path@.len() > 0 ==> if link_among(slash_count(path@) as int, symlinked@) {
            r matches Err(e) && e is SymlinkEscape && e->SymlinkEscape_0@ == utf8_lossy(path@)
        } else {
            r matches Ok(p) && p@ == path@
        },
{
    browse_path_check(path, symlinked, false)
}

} // verus!

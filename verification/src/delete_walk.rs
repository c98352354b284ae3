//! The walk of a server's recursive delete: which path comes next, what
//! each outcome is reported as, and how the delete ends.
//!
//! Entries are visited depth first; a directory is removed only after every
//! entry listed in it was visited. The embedding program inspects, lists and
//! removes, and writes the progress frames this walk produces.

use vstd::prelude::*;
use crate::destination::{redirected, slash_count};
use crate::protocol::{DeleteFailure, DeleteStatus, V2Message};
use crate::text::{copy_bytes, string_bytes};
use crate::wire_path::{joined, valid_wire_path, WirePath};

verus! {

/// The `errno` reported for a path that cannot name anything under the root.
pub const EINVAL: i32 = 22;

/// One step of the walk: a path, and whether its children were already
/// visited (so the directory itself is due for removal).
pub struct DeleteItem {
    pub path: WirePath,
    pub after_children: bool,
}

/// The paths of a directory's listed entries that can be walked, in
/// listing order: each name joined under the directory, where that forms a
/// valid path.
pub open spec fn listed_children(directory: Seq<u8>, names: Seq<Seq<u8>>) -> Seq<Seq<u8>>
    decreases names.len(),
{
    if names.len() == 0 {
        Seq::empty()
    } else {
        let before = listed_children(directory, names.drop_last());
        let child = joined(directory, names.last());
        if valid_wire_path(child) {
            before.push(child)
        } else {
            before
        }
    }
}

/// The failures a listing adds: one for the directory per listed name that
/// forms no valid path under it.
pub open spec fn unusable_names(directory: Seq<u8>, names: Seq<Seq<u8>>) -> Seq<(Seq<u8>, i32)>
    decreases names.len(),
{
    if names.len() == 0 {
        Seq::empty()
    } else {
        let before = unusable_names(directory, names.drop_last());
        if valid_wire_path(joined(directory, names.last())) {
            before
        } else {
            before.push((directory, EINVAL))
        }
    }
}

/// Steps that visit `children`, stacked so the first listed is taken first.
pub open spec fn visits(children: Seq<Seq<u8>>) -> Seq<(Seq<u8>, bool)> {
    Seq::new(children.len(), |i: int| (children[children.len() - 1 - i], false))
}

/// An in-progress recursive delete.
pub struct DeleteWalk {
    related_id: u64,
    stack: Vec<DeleteItem>,
    failures: Vec<DeleteFailure>,
    removed_count: u64,
    cancelled: bool,
}

/// How a delete request begins.
pub enum DeleteStart {
    /// Walk the tree from this path.
    Walk(DeleteWalk),
    /// The path was refused; this is the whole answer.
    Refused(V2Message),
}

/// The answer to a delete whose path was refused before anything was touched.
pub open spec fn is_refusal(m: V2Message, related_id: u64, path: Seq<u8>) -> bool {
    m matches V2Message::DeleteResponse { related_id: i, status, removed_count, failures, irreversible }
        && i == related_id && status == DeleteStatus::Partial && removed_count == 0 && irreversible
        && failures@.len() == 1 && failures@[0].path@ == path && failures@[0].errno == EINVAL
}

/// Whether a progress frame reports `path` of delete `related_id`.
pub open spec fn is_progress(m: V2Message, related_id: u64, path: Seq<u8>, removed: bool, error: Seq<char>) -> bool {
    m matches V2Message::DeleteProgress { related_id: i, path: p, removed: r, error: e } && i == related_id
        && p@ == path && r == removed && e@ == vstd::utf8::encode_utf8(error)
}


fn refusal(related_id: u64, path: &[u8]) -> (r: V2Message)
    ensures
        is_refusal(r, related_id, path@),
{
    let mut failures: Vec<DeleteFailure> = Vec::new();
    failures.push(DeleteFailure { path: copy_bytes(path), errno: EINVAL });
    V2Message::DeleteResponse {
        related_id,
        status: DeleteStatus::Partial,
        removed_count: 0,
        failures,
        irreversible: true,
    }
}

/// Begins delete `related_id` of `path`. An unsafe path, the root itself,
/// and a path with a symlink among its ancestors (`symlinked` as for a
/// mutation) are refused with `EINVAL` before anything is touched.
pub fn start_delete(related_id: u64, path: &[u8], symlinked: &[bool]) -> (r: DeleteStart)
    ensures
        !valid_wire_path(path@) || path@.len() == 0 || redirected(slash_count(path@) + 1, symlinked@)
            ==> (r matches DeleteStart::Refused(m) && is_refusal(m, related_id, path@)),
        valid_wire_path(path@) && path@.len() > 0 && !redirected(slash_count(path@) + 1, symlinked@)
            ==> (r matches DeleteStart::Walk(w) && w.wf() && w.spec_related_id() == related_id
            && w.spec_pending() == seq![(path@, false)] && w.spec_failures().len() == 0
            && w.spec_removed() == 0 && !w.spec_cancelled()),
{
    let relative = match WirePath::from_wire(copy_bytes(path)) {
        Ok(p) => p,
        Err(_) => {
            return DeleteStart::Refused(refusal(related_id, path));
        },
    };
    if relative.is_empty() {
        return DeleteStart::Refused(refusal(related_id, path));
    }
    let mut scratch = crate::destination::SeenPaths::new();
    match crate::destination::validate_unique_destination_path(&relative, symlinked, &mut scratch) {
        Ok(()) => {},
        Err(_) => {
            return DeleteStart::Refused(refusal(related_id, path));
        },
    }
    let mut stack: Vec<DeleteItem> = Vec::new();
    stack.push(DeleteItem { path: relative, after_children: false });
    let w = DeleteWalk { related_id, stack, failures: Vec::new(), removed_count: 0, cancelled: false };
    assert(w.spec_pending() =~= seq![(path@, false)]);
    DeleteStart::Walk(w)
}

impl DeleteWalk {
    /// The delete this walk answers.
    pub closed spec fn spec_related_id(&self) -> u64 {
        self.related_id
    }

    /// The steps still to take, the next one last.
    pub closed spec fn spec_pending(&self) -> Seq<(Seq<u8>, bool)> {
        self.stack@.map_values(|i: DeleteItem| (i.path@, i.after_children))
    }

    /// The failures so far, as path and `errno`.
    pub closed spec fn spec_failures(&self) -> Seq<(Seq<u8>, i32)> {
        self.failures@.map_values(|f: DeleteFailure| (f.path@, f.errno))
    }

    /// Entries removed so far.
    pub closed spec fn spec_removed(&self) -> u64 {
        self.removed_count
    }

    /// Whether the peer cancelled the delete.
    pub closed spec fn spec_cancelled(&self) -> bool {
        self.cancelled
    }

    /// Every pending path is a valid, non-empty relative path.
    pub closed spec fn wf(&self) -> bool {
        forall|k: int| 0 <= k < self.spec_pending().len() ==> valid_wire_path((#[trigger] self.spec_pending()[k]).0)
            && self.spec_pending()[k].0.len() > 0
    }

    /// The next step, or `None` once the walk is done or cancelled.
    pub fn next(&mut self) -> (r: Option<DeleteItem>)
        requires
            old(self).wf(),
        ensures
            final(self).wf(),
            old(self).spec_cancelled() || old(self).spec_pending().len() == 0 ==> r is None
                && final(self).spec_pending() == old(self).spec_pending(),
            !old(self).spec_cancelled() && old(self).spec_pending().len() > 0 ==> (r matches Some(item)
                && (item.path@, item.after_children) == old(self).spec_pending().last()
                && valid_wire_path(item.path@) && item.path@.len() > 0
                && final(self).spec_pending() == old(self).spec_pending().drop_last()),
            final(self).spec_failures() == old(self).spec_failures(),
            final(self).spec_removed() == old(self).spec_removed(),
            final(self).spec_cancelled() == old(self).spec_cancelled(),
            final(self).spec_related_id() == old(self).spec_related_id(),
    {
        if self.cancelled {
            return None;
        }
        let ghost before = self.stack@;
        let r = self.stack.pop();
        proof {
            if before.len() > 0 {
                let k = before.len() - 1;
                assert(self.stack@ == before.drop_last());
                assert(self.spec_pending() =~= old(self).spec_pending().drop_last());
                assert(old(self).spec_pending()[k as int] == (before[k as int].path@, before[k as int].after_children));
                assert(valid_wire_path(old(self).spec_pending()[k as int].0));
            }
        }
        r
    }

    /// The peer cancelled: no further step is taken.
    pub fn cancel(&mut self) -> (r: V2Message)
        requires
            old(self).wf(),
        ensures
            final(self).spec_cancelled(),
            final(self).spec_pending() == old(self).spec_pending(),
            final(self).spec_failures() == old(self).spec_failures(),
            final(self).spec_removed() == old(self).spec_removed(),
            final(self).spec_related_id() == old(self).spec_related_id(),
            final(self).wf(),
            r matches V2Message::BrowseError { related_id, code, message } && related_id
                == old(self).spec_related_id() && code == 1 && message@ == vstd::utf8::encode_utf8(
                "request cancelled"@,
            ),
    {
        self.cancelled = true;
        V2Message::BrowseError {
            related_id: self.related_id,
            code: 1,
            message: string_bytes("request cancelled"),
        }
    }

    /// Records that `path` could not be inspected, listed or removed.
    pub fn failed(&mut self, path: &WirePath, errno: i32, error: &str) -> (r: V2Message)
        requires
            old(self).wf(),
        ensures
            final(self).spec_failures() == old(self).spec_failures().push((path@, errno)),
            final(self).spec_pending() == old(self).spec_pending(),
            final(self).spec_removed() == old(self).spec_removed(),
            final(self).spec_cancelled() == old(self).spec_cancelled(),
            final(self).spec_related_id() == old(self).spec_related_id(),
            final(self).wf(),
            is_progress(r, old(self).spec_related_id(), path@, false, error@),
    {
        self.failures.push(DeleteFailure { path: copy_bytes(path.as_bytes()), errno });
        assert(self.spec_failures() =~= old(self).spec_failures().push((path@, errno)));
        V2Message::DeleteProgress {
            related_id: self.related_id,
            path: copy_bytes(path.as_bytes()),
            removed: false,
            error: string_bytes(error),
        }
    }

    /// Records a failure to read one entry of a listing, which is reported
    /// in the final answer only.
    pub fn entry_failed(&mut self, directory: &WirePath, errno: i32)
        requires
            old(self).wf(),
        ensures
            final(self).spec_failures() == old(self).spec_failures().push((directory@, errno)),
            final(self).spec_pending() == old(self).spec_pending(),
            final(self).spec_removed() == old(self).spec_removed(),
            final(self).spec_cancelled() == old(self).spec_cancelled(),
            final(self).spec_related_id() == old(self).spec_related_id(),
            final(self).wf(),
    {
        self.failures.push(DeleteFailure { path: copy_bytes(directory.as_bytes()), errno });
        assert(self.spec_failures() =~= old(self).spec_failures().push((directory@, errno)));
    }

    /// Records that `path` was removed.
    pub fn removed(&mut self, path: &WirePath) -> (r: V2Message)
        requires
            old(self).wf(),
        ensures
            final(self).spec_removed() == (if old(self).spec_removed() == u64::MAX {
                u64::MAX
            } else {
                (old(self).spec_removed() + 1) as u64
            }),
            final(self).spec_failures() == old(self).spec_failures(),
            final(self).spec_pending() == old(self).spec_pending(),
            final(self).spec_cancelled() == old(self).spec_cancelled(),
            final(self).spec_related_id() == old(self).spec_related_id(),
            final(self).wf(),
            is_progress(r, old(self).spec_related_id(), path@, true, ""@),
    {
        self.removed_count = self.removed_count.saturating_add(1);
        V2Message::DeleteProgress {
            related_id: self.related_id,
            path: copy_bytes(path.as_bytes()),
            removed: true,
            error: string_bytes(""),
        }
    }

    /// Schedules a directory's listed entries, to be visited in listing order
    /// before the directory itself is removed. A name that cannot form a
    /// valid path under the directory is recorded as a failure of the
    /// directory.
    pub fn expand(&mut self, directory: WirePath, names: &Vec<Vec<u8>>)
        requires
            old(self).wf(),
            valid_wire_path(directory@),
            directory@.len() > 0,
        ensures
            final(self).wf(),
            final(self).spec_pending() == old(self).spec_pending().push((directory@, true)) + visits(
                listed_children(directory@, names@.map_values(|n: Vec<u8>| n@)),
            ),
            final(self).spec_failures() == old(self).spec_failures() + unusable_names(
                directory@,
                names@.map_values(|n: Vec<u8>| n@),
            ),
            final(self).spec_removed() == old(self).spec_removed(),
            final(self).spec_cancelled() == old(self).spec_cancelled(),
            final(self).spec_related_id() == old(self).spec_related_id(),
    {
        let ghost before = self.spec_pending();
        let ghost failed_before = self.spec_failures();
        let ghost dir = directory@;
        let ghost all = names@.map_values(|n: Vec<u8>| n@);
        let mut children: Vec<WirePath> = Vec::new();
        let mut k: usize = 0;
        while k < names.len()
            invariant
                k <= names@.len(),
                all == names@.map_values(|n: Vec<u8>| n@),
                valid_wire_path(dir),
                dir.len() > 0,
                children@.map_values(|c: WirePath| c@) == listed_children(dir, all.take(k as int)),
                forall|m: int| 0 <= m < children@.len() ==> valid_wire_path((#[trigger] children@[m])@) && children@[m]@.len() > 0,
                self.spec_pending() == before,
                self.spec_failures() == failed_before + unusable_names(dir, all.take(k as int)),
                self.wf(),
                self.spec_removed() == old(self).spec_removed(),
                self.spec_cancelled() == old(self).spec_cancelled(),
                self.spec_related_id() == old(self).spec_related_id(),
                directory@ == dir,
            decreases names.len() - k,
        {
            let mut bytes = copy_bytes(directory.as_bytes());
            bytes.push(47u8);
            let mut name = copy_bytes(names[k].as_slice());
            bytes.append(&mut name);
            let ghost child = bytes@;
            assert(child =~= joined(dir, all[k as int]));
            assert(all.take(k as int + 1).drop_last() =~= all.take(k as int));
            assert(all.take(k as int + 1).last() == all[k as int]);
            let ghost views = children@.map_values(|c: WirePath| c@);
            match WirePath::from_wire(bytes) {
                Ok(c) => {
                    children.push(c);
                    assert(children@.map_values(|c: WirePath| c@) =~= views.push(child));
                },
                Err(_) => {
                    self.entry_failed(&directory, EINVAL);
                    assert(self.spec_failures() =~= failed_before + unusable_names(dir, all.take(k as int + 1)));
                },
            }
            k = k + 1;
        }
        assert(all.take(names@.len() as int) =~= all);
        let ghost list = children@.map_values(|c: WirePath| c@);
        let ghost n = children@.len();
        self.stack.push(DeleteItem { path: directory, after_children: true });
        proof {
            assert(self.spec_pending() =~= before.push((dir, true)) + visits(list.take(0)));
        }
        let ghost base = before.push((dir, true));
        while children.len() > 0
            invariant
                forall|m: int| 0 <= m < children@.len() ==> valid_wire_path((#[trigger] children@[m])@) && children@[m]@.len() > 0,
                children@.len() <= n,
                n == list.len(),
                forall|m: int| 0 <= m < children@.len() ==> (#[trigger] children@[m])@ == list[m],
                self.spec_pending() == base + Seq::new((n - children@.len()) as nat, |i: int| (list[n - 1 - i], false)),
                self.wf(),
                self.spec_failures() == failed_before + unusable_names(dir, all),
                self.spec_removed() == old(self).spec_removed(),
                self.spec_cancelled() == old(self).spec_cancelled(),
                self.spec_related_id() == old(self).spec_related_id(),
            decreases children@.len(),
        {
            let ghost done = (n - children@.len()) as nat;
            let child = children.pop().unwrap();
            let ghost p0 = self.spec_pending();
            let ghost cv = child@;
            assert(cv == list[n - 1 - done]);
            self.stack.push(DeleteItem { path: child, after_children: false });
            assert(self.spec_pending() =~= p0.push((cv, false)));
            assert(self.spec_pending() =~= base + Seq::new((done + 1) as nat, |i: int| (list[n - 1 - i], false)));
        }
        proof {
            assert(Seq::new(n as nat, |i: int| (list[n - 1 - i], false)) =~= visits(list));
            assert(list == listed_children(dir, all));
        }
    }

    /// The final answer: cancelled when the peer cancelled, complete when
    /// nothing failed, partial otherwise. A delete is never reversible.
    pub fn finish(self) -> (r: V2Message)
        ensures
            r matches V2Message::DeleteResponse { related_id, status, removed_count, failures, irreversible }
                && related_id == self.spec_related_id() && removed_count == self.spec_removed() && irreversible
                && failures@.map_values(|f: DeleteFailure| (f.path@, f.errno)) == self.spec_failures()
                && status == (if self.spec_cancelled() {
                DeleteStatus::Cancelled
            } else if self.spec_failures().len() == 0 {
                DeleteStatus::Complete
            } else {
                DeleteStatus::Partial
            }),
    {
        let status = if self.cancelled {
            DeleteStatus::Cancelled
        } else if self.failures.len() == 0 {
            DeleteStatus::Complete
        } else {
            DeleteStatus::Partial
        };
        V2Message::DeleteResponse {
            related_id: self.related_id,
            status,
            removed_count: self.removed_count,
            failures: self.failures,
            irreversible: true,
        }
    }
}

/// After a directory is expanded, its removal step lies beneath the visits
/// of all its listed entries, and the first listed entry is taken next: as
/// steps are taken from the top, every entry of a directory is visited
/// before the directory is removed, in listing order.
pub proof fn lemma_children_visited_first(
    pending: Seq<(Seq<u8>, bool)>,
    directory: Seq<u8>,
    children: Seq<Seq<u8>>,
)
    ensures
        ({
            let after = pending.push((directory, true)) + visits(children);
            &&& after.len() == pending.len() + 1 + children.len()
            &&& after.subrange(0, pending.len() as int) == pending
            &&& after[pending.len() as int] == (directory, true)
            &&& forall|i: int| 0 <= i < children.len() ==> #[trigger] after[after.len() - 1 - i] == (children[i], false)
        }),
{
    let after = pending.push((directory, true)) + visits(children);
    assert(after.subrange(0, pending.len() as int) =~= pending);
    assert forall|i: int| 0 <= i < children.len() implies #[trigger] after[after.len() - 1 - i] == (children[i], false) by {
        let j = children.len() - 1 - i;
        assert(after[pending.len() + 1 + j] == visits(children)[j]);
    }
}

/// The pending steps after a run of walk operations, the steps taken, in
/// order, and the lowest the pending steps ever were. An operation is
/// `None` for taking the next step ([`DeleteWalk::next`]) or the directory
/// and entry paths an expansion schedules ([`DeleteWalk::expand`]).
pub open spec fn run_walk(
    pending: Seq<(Seq<u8>, bool)>,
    ops: Seq<Option<(Seq<u8>, Seq<Seq<u8>>)>>,
) -> (Seq<(Seq<u8>, bool)>, Seq<(Seq<u8>, bool)>, nat)
    decreases ops.len(),
{
    if ops.len() == 0 {
        (pending, Seq::empty(), pending.len())
    } else {
        let (stack, taken, low) = run_walk(pending, ops.drop_last());
        match ops.last() {
            None => if stack.len() > 0 {
                let height = (stack.len() - 1) as nat;
                (stack.drop_last(), taken.push(stack.last()), if height < low { height } else { low })
            } else {
                (stack, taken, low)
            },
            Some((directory, children)) => (stack.push((directory, true)) + visits(children), taken, low),
        }
    }
}

/// Steps are taken from the top: whatever lay below the lowest point the
/// pending steps reached is untouched, and every step that lay above it
/// has been taken.
pub proof fn lemma_walk_takes_from_the_top(
    pending: Seq<(Seq<u8>, bool)>,
    ops: Seq<Option<(Seq<u8>, Seq<Seq<u8>>)>>,
)
    ensures
        ({
            let (stack, taken, low) = run_walk(pending, ops);
            &&& low <= pending.len()
            &&& low <= stack.len()
            &&& stack.subrange(0, low as int) == pending.subrange(0, low as int)
            &&& forall|j: int| low <= j < pending.len() ==> taken.contains(#[trigger] pending[j])
        }),
    decreases ops.len(),
{
    if ops.len() > 0 {
        lemma_walk_takes_from_the_top(pending, ops.drop_last());
        let (stack, taken, low) = run_walk(pending, ops.drop_last());
        match ops.last() {
            None => {
                if stack.len() > 0 {
                    let height = (stack.len() - 1) as nat;
                    let new_low = if height < low { height } else { low };
                    let new_taken = taken.push(stack.last());
                    assert(stack.drop_last().subrange(0, new_low as int) =~= pending.subrange(0, new_low as int)) by {
                        assert forall|k: int| 0 <= k < new_low implies stack.drop_last()[k] == pending[k] by {
                            assert(stack.subrange(0, low as int)[k] == pending.subrange(0, low as int)[k]);
                        }
                    }
                    assert forall|j: int| new_low <= j < pending.len() implies new_taken.contains(#[trigger] pending[j]) by {
                        if j < low {
                            assert(j == height);
                            assert(stack.subrange(0, low as int)[j] == pending.subrange(0, low as int)[j]);
                            assert(new_taken[taken.len() as int] == pending[j]);
                        } else {
                            let a = choose|a: int| 0 <= a < taken.len() && taken[a] == pending[j];
                            assert(new_taken[a] == pending[j]);
                        }
                    }
                }
            },
            Some((directory, children)) => {
                let grown = stack.push((directory, true)) + visits(children);
                assert(grown.subrange(0, low as int) =~= pending.subrange(0, low as int)) by {
                    assert forall|k: int| 0 <= k < low implies grown[k] == pending[k] by {
                        assert(stack.subrange(0, low as int)[k] == pending.subrange(0, low as int)[k]);
                    }
                }
            },
        }
    }
}

/// A directory is removed only after every entry listed in it was visited:
/// from its expansion on, as long as its removal step has not been taken,
/// that step is still in place, and once it is the next step again, every
/// scheduled entry has been taken.
pub proof fn lemma_directory_removed_after_its_entries(
    pending: Seq<(Seq<u8>, bool)>,
    directory: Seq<u8>,
    children: Seq<Seq<u8>>,
    ops: Seq<Option<(Seq<u8>, Seq<Seq<u8>>)>>,
)
    requires
        run_walk(pending.push((directory, true)) + visits(children), ops).2 > pending.len(),
    ensures
        ({
            let (stack, taken, low) = run_walk(pending.push((directory, true)) + visits(children), ops);
            &&& stack[pending.len() as int] == (directory, true)
            &&& stack.len() == pending.len() + 1 ==> forall|i: int| 0 <= i < children.len()
                ==> taken.contains((#[trigger] children[i], false))
        }),
{
    let start = pending.push((directory, true)) + visits(children);
    lemma_walk_takes_from_the_top(start, ops);
    let (stack, taken, low) = run_walk(start, ops);
    assert(stack.subrange(0, low as int)[pending.len() as int] == start.subrange(0, low as int)[pending.len() as int]);
    assert(start[pending.len() as int] == (directory, true));
    if stack.len() == pending.len() + 1 {
        assert forall|i: int| 0 <= i < children.len() implies taken.contains((#[trigger] children[i], false)) by {
            let j = pending.len() + 1 + (children.len() - 1 - i);
            assert(start[j] == visits(children)[children.len() - 1 - i]);
            assert(start[j] == (children[i], false));
            assert(taken.contains(start[j]));
        }
    }
}

} // verus!

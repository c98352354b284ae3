//! Relative paths as they cross the wire: `/`-separated bytes that can never
//! name anything outside the root they are resolved under.

use vstd::prelude::*;
use crate::text::{lossy_string, push_str, utf8_lossy};

verus! {

/// Position `i` begins a component: it is the first byte or follows a slash.
pub open spec fn starts_component(s: Seq<u8>, i: int) -> bool {
    i == 0 || (0 < i <= s.len() && s[i - 1] == 0x2f)
}

/// Position `i` ends a component: it is the end or holds a slash.
pub open spec fn ends_component(s: Seq<u8>, i: int) -> bool {
    i == s.len() || (0 <= i < s.len() && s[i] == 0x2f)
}

/// An empty component (a leading, doubled or trailing slash) begins at `i`.
pub open spec fn empty_component_at(s: Seq<u8>, i: int) -> bool {
    starts_component(s, i) && ends_component(s, i)
}

/// A `.` component begins at `i`.
pub open spec fn dot_component_at(s: Seq<u8>, i: int) -> bool {
    starts_component(s, i) && 0 <= i < s.len() && s[i] == 0x2e && ends_component(s, i + 1)
}

/// A `..` component begins at `i`.
pub open spec fn dotdot_component_at(s: Seq<u8>, i: int) -> bool {
    starts_component(s, i) && 0 <= i && i + 1 < s.len() && s[i] == 0x2e && s[i + 1] == 0x2e
        && ends_component(s, i + 2)
}

/// A wire path is empty (the root itself) or a sequence of non-empty
/// components separated by single slashes, none of them `.` or `..`, with no
/// NUL byte anywhere. So it is never absolute and never climbs.
pub open spec fn valid_wire_path(s: Seq<u8>) -> bool {
    s.len() == 0 || {
        &&& forall|i: int| 0 <= i < s.len() ==> #[trigger] s[i] != 0
        &&& forall|i: int| 0 <= i <= s.len() ==> !#[trigger] empty_component_at(s, i)
        &&& forall|i: int| 0 <= i < s.len() ==> !#[trigger] dot_component_at(s, i)
        &&& forall|i: int| 0 <= i < s.len() ==> !#[trigger] dotdot_component_at(s, i)
    }
}

fn starts_component_exec(s: &[u8], i: usize) -> (r: bool)
    requires
        i <= s@.len(),
    ensures
        r == starts_component(s@, i as int),
{
    i == 0 || s[i - 1] == 0x2f
}

fn ends_component_exec(s: &[u8], i: usize) -> (r: bool)
    requires
        i <= s@.len(),
    ensures
        r == ends_component(s@, i as int),
{
    i == s.len() || s[i] == 0x2f
}

/// Whether bytes form a valid wire path.
pub fn is_valid_wire_path(s: &[u8]) -> (r: bool)
    ensures
        r == valid_wire_path(s@),
{
    let n = s.len();
    if n == 0 {
        return true;
    }
    let mut i: usize = 0;
    while i < n
        invariant
            n == s@.len(),
            0 <= i <= n,
            forall|j: int| 0 <= j < i ==> #[trigger] s@[j] != 0,
            forall|j: int| 0 <= j < i ==> !#[trigger] empty_component_at(s@, j),
            forall|j: int| 0 <= j < i ==> !#[trigger] dot_component_at(s@, j),
            forall|j: int| 0 <= j < i ==> !#[trigger] dotdot_component_at(s@, j),
        decreases n - i,
    {
        if s[i] == 0 {
            assert(!valid_wire_path(s@));
            return false;
        }
        let start = starts_component_exec(s, i);
        if start && ends_component_exec(s, i) {
            assert(empty_component_at(s@, i as int));
            return false;
        }
        if start && s[i] == 0x2e && ends_component_exec(s, i + 1) {
            assert(dot_component_at(s@, i as int));
            return false;
        }
        if start && i + 1 < n && s[i] == 0x2e && s[i + 1] == 0x2e && ends_component_exec(s, i + 2) {
            assert(dotdot_component_at(s@, i as int));
            return false;
        }
        i = i + 1;
    }
    if starts_component_exec(s, n) {
        assert(empty_component_at(s@, n as int));
        return false;
    }
    assert forall|j: int| 0 <= j <= s@.len() implies !#[trigger] empty_component_at(s@, j) by {
        if j == s@.len() {
            assert(!starts_component(s@, j));
        }
    }
    true
}

/// Two paths joined by one slash.
pub open spec fn joined(a: Seq<u8>, b: Seq<u8>) -> Seq<u8> {
    a + seq![0x2fu8] + b
}

/// Positions in the left part of a join, and the slash after it, begin and
/// end components exactly where they do in the left path alone; positions
/// in the right part, where they do in the right path alone.
proof fn lemma_join_boundaries(a: Seq<u8>, b: Seq<u8>)
    ensures
        forall|i: int| 0 <= i <= a.len() ==> (#[trigger] starts_component(joined(a, b), i)
            == starts_component(a, i)),
        forall|i: int| 0 <= i <= a.len() ==> (#[trigger] ends_component(joined(a, b), i)
            == ends_component(a, i)),
        forall|j: int| 0 <= j <= b.len() ==> (#[trigger] starts_component(joined(a, b), a.len() + 1 + j)
            == starts_component(b, j)),
        forall|j: int| 0 <= j <= b.len() ==> (#[trigger] ends_component(joined(a, b), a.len() + 1 + j)
            == ends_component(b, j)),
{
    let s = joined(a, b);
    assert forall|i: int| 0 <= i <= a.len() implies (#[trigger] starts_component(s, i) == starts_component(a, i)) by {
        if 0 < i {
            assert(s[i - 1] == a[i - 1]);
        }
    }
    assert forall|i: int| 0 <= i <= a.len() implies (#[trigger] ends_component(s, i) == ends_component(a, i)) by {
        if i < a.len() {
            assert(s[i] == a[i]);
        } else {
            assert(s[i] == 0x2fu8);
        }
    }
    assert forall|j: int| 0 <= j <= b.len() implies (#[trigger] starts_component(s, a.len() + 1 + j)
        == starts_component(b, j)) by {
        if j == 0 {
            assert(s[a.len() as int] == 0x2fu8);
        } else {
            assert(s[a.len() + 1 + j - 1] == b[j - 1]);
        }
    }
    assert forall|j: int| 0 <= j <= b.len() implies (#[trigger] ends_component(s, a.len() + 1 + j)
        == ends_component(b, j)) by {
        if j < b.len() {
            assert(s[a.len() + 1 + j] == b[j]);
        }
    }
}

/// Joining two non-empty valid paths by a slash gives a valid path.
pub proof fn lemma_join_valid(a: Seq<u8>, b: Seq<u8>)
    requires
        valid_wire_path(a),
        valid_wire_path(b),
        a.len() > 0,
        b.len() > 0,
    ensures
        valid_wire_path(joined(a, b)),
{
    let s = joined(a, b);
    lemma_join_boundaries(a, b);
    let n = a.len() as int;
    assert forall|i: int| 0 <= i < s.len() implies #[trigger] s[i] != 0 by {
        if i < n {
            assert(s[i] == a[i]);
        } else if i > n {
            assert(s[i] == b[i - n - 1]);
        }
    }
    // The left path does not end in a slash, so the joining slash opens no
    // empty component; the right one does not start with one.
    assert(!empty_component_at(a, n));
    assert(!empty_component_at(b, 0));
    assert forall|i: int| 0 <= i <= s.len() implies !#[trigger] empty_component_at(s, i) by {
        if i <= n {
            assert(starts_component(s, i) == starts_component(a, i));
            assert(ends_component(s, i) == ends_component(a, i));
            assert(!empty_component_at(a, i));
        } else {
            let j = i - n - 1;
            assert(starts_component(s, n + 1 + j) == starts_component(b, j));
            assert(ends_component(s, n + 1 + j) == ends_component(b, j));
            assert(!empty_component_at(b, j));
        }
    }
    assert forall|i: int| 0 <= i < s.len() implies !#[trigger] dot_component_at(s, i) by {
        if i < n {
            assert(starts_component(s, i) == starts_component(a, i));
            assert(ends_component(s, i + 1) == ends_component(a, i + 1));
            assert(s[i] == a[i]);
            assert(!dot_component_at(a, i));
        } else if i > n {
            let j = i - n - 1;
            assert(starts_component(s, n + 1 + j) == starts_component(b, j));
            assert(ends_component(s, n + 1 + (j + 1)) == ends_component(b, j + 1));
            assert(s[i] == b[j]);
            assert(!dot_component_at(b, j));
        }
    }
    assert forall|i: int| 0 <= i < s.len() implies !#[trigger] dotdot_component_at(s, i) by {
        if i + 1 < n {
            assert(starts_component(s, i) == starts_component(a, i));
            assert(ends_component(s, i + 2) == ends_component(a, i + 2));
            assert(s[i] == a[i] && s[i + 1] == a[i + 1]);
            assert(!dotdot_component_at(a, i));
        } else if i + 1 == n {
            assert(s[i + 1] == 0x2fu8);
        } else if i > n {
            let j = i - n - 1;
            if j + 1 < b.len() {
                assert(starts_component(s, n + 1 + j) == starts_component(b, j));
                assert(ends_component(s, n + 1 + (j + 2)) == ends_component(b, j + 2));
                assert(s[i] == b[j] && s[i + 1] == b[j + 1]);
                assert(!dotdot_component_at(b, j));
            }
        }
    }
}

/// Each side of a valid path split at a slash is itself valid.
pub proof fn lemma_split_valid(a: Seq<u8>, b: Seq<u8>)
    requires
        valid_wire_path(joined(a, b)),
    ensures
        valid_wire_path(a),
        valid_wire_path(b),
        a.len() > 0,
        b.len() > 0,
{
    let s = joined(a, b);
    lemma_join_boundaries(a, b);
    let n = a.len() as int;
    if a.len() == 0 {
        assert(empty_component_at(s, 0));
    }
    if b.len() == 0 {
        assert(starts_component(s, n + 1 + 0) == starts_component(b, 0));
        assert(ends_component(s, n + 1 + 0) == ends_component(b, 0));
        assert(empty_component_at(s, n + 1));
    }
    assert forall|i: int| 0 <= i < a.len() implies #[trigger] a[i] != 0 by {
        assert(s[i] == a[i]);
    }
    assert forall|j: int| 0 <= j < b.len() implies #[trigger] b[j] != 0 by {
        assert(s[n + 1 + j] == b[j]);
    }
    assert forall|i: int| 0 <= i <= a.len() implies !#[trigger] empty_component_at(a, i) by {
        assert(starts_component(s, i) == starts_component(a, i));
        assert(ends_component(s, i) == ends_component(a, i));
        assert(!empty_component_at(s, i));
    }
    assert forall|j: int| 0 <= j <= b.len() implies !#[trigger] empty_component_at(b, j) by {
        assert(starts_component(s, n + 1 + j) == starts_component(b, j));
        assert(ends_component(s, n + 1 + j) == ends_component(b, j));
        assert(!empty_component_at(s, n + 1 + j));
    }
    assert forall|i: int| 0 <= i < a.len() implies !#[trigger] dot_component_at(a, i) by {
        assert(starts_component(s, i) == starts_component(a, i));
        assert(ends_component(s, i + 1) == ends_component(a, i + 1));
        assert(s[i] == a[i]);
        assert(!dot_component_at(s, i));
    }
    assert forall|j: int| 0 <= j < b.len() implies !#[trigger] dot_component_at(b, j) by {
        assert(starts_component(s, n + 1 + j) == starts_component(b, j));
        assert(ends_component(s, n + 1 + (j + 1)) == ends_component(b, j + 1));
        assert(s[n + 1 + j] == b[j]);
        assert(!dot_component_at(s, n + 1 + j));
    }
    assert forall|i: int| 0 <= i < a.len() implies !#[trigger] dotdot_component_at(a, i) by {
        if i + 1 < a.len() {
            assert(starts_component(s, i) == starts_component(a, i));
            assert(ends_component(s, i + 2) == ends_component(a, i + 2));
            assert(s[i] == a[i] && s[i + 1] == a[i + 1]);
            assert(!dotdot_component_at(s, i));
        }
    }
    assert forall|j: int| 0 <= j < b.len() implies !#[trigger] dotdot_component_at(b, j) by {
        if j + 1 < b.len() {
            assert(starts_component(s, n + 1 + j) == starts_component(b, j));
            assert(ends_component(s, n + 1 + (j + 2)) == ends_component(b, j + 2));
            assert(s[n + 1 + j] == b[j] && s[n + 1 + j + 1] == b[j + 1]);
            assert(!dotdot_component_at(s, n + 1 + j));
        }
    }
}

/// The path `path` takes under the directory `prefix`: the prefix itself
/// for the root, `prefix/path` otherwise; an empty prefix changes nothing.
pub open spec fn under(prefix: Seq<u8>, path: Seq<u8>) -> Seq<u8> {
    if prefix.len() == 0 {
        path
    } else if path.len() == 0 {
        prefix
    } else {
        joined(prefix, path)
    }
}

/// What is left of `whole` below the directory `prefix`, when it lies
/// strictly below it.
pub open spec fn stripped(whole: Seq<u8>, prefix: Seq<u8>) -> Option<Seq<u8>> {
    if whole.len() > prefix.len() && whole.subrange(0, prefix.len() as int) == prefix && whole[prefix.len() as int]
        == 0x2fu8 {
        Some(whole.skip(prefix.len() as int + 1))
    } else {
        None
    }
}

/// Placing a path under a directory and taking the directory off again
/// gives the path back, and the result stays a valid path.
pub proof fn lemma_strip_undoes_prefix(prefix: Seq<u8>, path: Seq<u8>)
    requires
        valid_wire_path(prefix),
        valid_wire_path(path),
        prefix.len() > 0,
        path.len() > 0,
    ensures
        valid_wire_path(under(prefix, path)),
        stripped(under(prefix, path), prefix) == Some(path),
{
    lemma_join_valid(prefix, path);
    let whole = joined(prefix, path);
    assert(whole.subrange(0, prefix.len() as int) =~= prefix);
    assert(whole.skip(prefix.len() as int + 1) =~= path);
}

/// A relative path that has passed wire validation.
#[derive(Debug, PartialEq, Eq, Hash)]
pub struct WirePath {
    bytes: Vec<u8>,
}

impl Clone for WirePath {
    fn clone(&self) -> (r: Self)
        ensures
            r@ == self@,
    {
        WirePath { bytes: self.bytes.clone() }
    }
}

/// A path received from a peer that could escape its root or is not
/// representable.
#[derive(Debug, Clone, PartialEq, Eq)]
pub struct WirePathError {
    /// The rejected bytes.
    pub path: Vec<u8>,
}

impl WirePathError {
    /// The diagnostic shown for a rejected path.
    pub open spec fn spec_text(&self) -> Seq<char> {
        "unsafe wire path '"@ + utf8_lossy(self.path@) + "'"@
    }

    /// The diagnostic shown for a rejected path.
    pub fn to_string(&self) -> (r: String)
        ensures
            r@ == self.spec_text(),
    {
        let mut s = String::new();
        push_str(&mut s, "unsafe wire path '");
        let lossy = lossy_string(self.path.as_slice());
        push_str(&mut s, lossy.as_str());
        push_str(&mut s, "'");
        proof {
            reveal_strlit("unsafe wire path '");
            reveal_strlit("'");
        }
        s
    }
}

impl View for WirePath {
    type V = Seq<u8>;

    closed spec fn view(&self) -> Seq<u8> {
        self.bytes@
    }
}

impl WirePath {
    /// The type's invariant: the bytes are a valid wire path.
    pub open spec fn wf(&self) -> bool {
        valid_wire_path(self@)
    }

    /// Accept bytes from the wire, refusing any path that could name
    /// something outside the root.
    pub fn from_wire(bytes: Vec<u8>) -> (r: Result<WirePath, WirePathError>)
        ensures
            valid_wire_path(bytes@) <==> r is Ok,
            r matches Ok(p) ==> p@ == bytes@ && p.wf(),
            r matches Err(e) ==> e.path@ == bytes@,
    {
        if is_valid_wire_path(bytes.as_slice()) {
            Ok(WirePath { bytes })
        } else {
            Err(WirePathError { path: bytes })
        }
    }

    /// The path's bytes.
    pub fn as_bytes(&self) -> (r: &[u8])
        ensures
            r@ == self@,
    {
        self.bytes.as_slice()
    }

    /// Whether the path names the root itself.
    pub fn is_empty(&self) -> (r: bool)
        ensures
            r == (self@.len() == 0),
    {
        self.bytes.len() == 0
    }

    /// This path placed under the directory `prefix`.
    pub fn with_prefix(&self, prefix: &WirePath) -> (r: WirePath)
        requires
            self.wf(),
            prefix.wf(),
        ensures
            r@ == under(prefix@, self@),
            r.wf(),
    {
        if prefix.bytes.len() == 0 {
            return self.clone();
        }
        if self.bytes.len() == 0 {
            return prefix.clone();
        }
        let mut bytes = prefix.bytes.clone();
        bytes.push(0x2fu8);
        let mut rest = self.bytes.clone();
        bytes.append(&mut rest);
        proof {
            assert(bytes@ =~= joined(prefix@, self@));
            lemma_join_valid(prefix@, self@);
        }
        WirePath { bytes }
    }

    /// What is left of this path below the directory `prefix`, if it lies
    /// strictly below it.
    pub fn strip_dir_prefix(&self, prefix: &WirePath) -> (r: Option<WirePath>)
        ensures
            match stripped(self@, prefix@) {
                Some(rest) => r matches Some(p) && p@ == rest,
                None => r is None,
            },
            self.wf() ==> (r matches Some(p) ==> p.wf()),
    {
        let whole = self.bytes.as_slice();
        let head = prefix.bytes.as_slice();
        assert(whole@ == self@ && head@ == prefix@);
        if whole.len() <= head.len() || whole[head.len()] != 0x2fu8 {
            return None;
        }
        let mut i: usize = 0;
        while i < head.len()
            invariant
                i <= head@.len(),
                head@.len() < whole@.len(),
                whole@ == self@,
                head@ == prefix@,
                forall|k: int| 0 <= k < i ==> whole@[k] == head@[k],
            decreases head.len() - i,
        {
            if whole[i] != head[i] {
                assert(whole@.subrange(0, head@.len() as int)[i as int] != head@[i as int]);
                assert(self@.subrange(0, prefix@.len() as int) != prefix@);
                return None;
            }
            i = i + 1;
        }
        assert(whole@.subrange(0, head@.len() as int) =~= head@);
        let mut rest: Vec<u8> = Vec::new();
        let mut k: usize = head.len() + 1;
        while k < whole.len()
            invariant
                head@.len() + 1 <= k <= whole@.len(),
                rest@ == whole@.subrange(head@.len() as int + 1, k as int),
            decreases whole.len() - k,
        {
            rest.push(whole[k]);
            k = k + 1;
            assert(rest@ =~= whole@.subrange(head@.len() as int + 1, k as int));
        }
        proof {
            assert(rest@ =~= self@.skip(prefix@.len() as int + 1));
            if self.wf() {
                let left = self@.subrange(0, prefix@.len() as int);
                assert(self@ =~= joined(left, rest@));
                lemma_split_valid(left, rest@);
            }
        }
        Some(WirePath { bytes: rest })
    }

    /// The path for display, invalid UTF-8 replaced.
    pub fn to_string(&self) -> (r: String)
        ensures
            r@ == utf8_lossy(self@),
    {
        lossy_string(self.bytes.as_slice())
    }
}

} // verus!

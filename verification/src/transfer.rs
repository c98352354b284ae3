//! Per-transfer decisions a client makes before and during a sync session:
//! how its filter travels, which job it names, when a file's ranges are
//! complete.

use vstd::prelude::*;
use crate::error::ServerError;
use crate::filter::{self, FilterSet, RuleView, Action};
use crate::protocol::{ByteRange, CAP_FILTER_RULES, CAP_UNIX_MODES};
use crate::digest::{blake3_digest, blake3_hash};
use crate::text::{push_str, string_bytes, utf8_string};

verus! {

/// The options of one local-side transfer that the session logic reads.
#[derive(Debug)]
pub struct LocalSyncOptions {
    /// The ordered rule set the user gave, if any.
    pub filter: Option<FilterSet>,
    /// The flat exclude patterns, kept for peers without ordered rules.
    pub exclude_patterns: Vec<String>,
    /// Parallel data streams; more than one takes the multi-stream path.
    pub streams: usize,
    /// Whether a missing remote binary may be provisioned.
    pub bootstrap: bool,
}

impl Default for LocalSyncOptions {
    fn default() -> (r: Self)
        ensures
            r.filter is None,
            r.exclude_patterns@.len() == 0,
            r.streams == 1,
            !r.bootstrap,
    {
        LocalSyncOptions { filter: None, exclude_patterns: Vec::new(), streams: 1, bootstrap: false }
    }
}

/// How a session's filter is represented on the wire: at most one side is
/// populated.
#[derive(Debug)]
pub struct WireFilter {
    pub exclude_patterns: Vec<Vec<u8>>,
    pub rules: Vec<Vec<u8>>,
}

/// The UTF-8 bytes of each pattern, in order.
pub open spec fn encoded_patterns(patterns: Seq<String>) -> Seq<Seq<u8>> {
    patterns.map_values(|p: String| vstd::utf8::encode_utf8(p@))
}

/// The UTF-8 bytes of each exclude pattern, in order.
pub fn encode_exclude_patterns(patterns: &[String]) -> (r: Vec<Vec<u8>>)
    ensures
        r@.map_values(|b: Vec<u8>| b@) == encoded_patterns(patterns@),
{
    let mut out: Vec<Vec<u8>> = Vec::new();
    for k in 0..patterns.len()
        invariant
            out@.len() == k,
            forall|m: int| 0 <= m < k ==> #[trigger] out@[m]@ == vstd::utf8::encode_utf8(
                patterns@[m]@,
            ),
    {
        out.push(string_bytes(patterns[k].as_str()));
    }
    assert(out@.map_values(|b: Vec<u8>| b@) =~= encoded_patterns(patterns@));
    out
}

/// The message an older peer's refusal of include rules carries.
pub open spec fn include_refusal() -> Seq<char> {
    "--include is not supported against this remote: it is an older xsync that carries only exclude patterns, and sending those alone would transfer more than you asked for. Update the remote, use --exclude/--exclude-from, or run xsync on the remote host so both ends of the filter are local."@
}

/// Whether a rule list holds an include rule.
pub open spec fn has_include(rules: Seq<RuleView>) -> bool {
    exists|k: int| 0 <= k < rules.len() && (#[trigger] rules[k]).0 == Action::Include
}

/// What the wire form of the filter is for a peer advertising
/// `remote_capabilities`, as [`filter_for_peer`] chooses it.
pub open spec fn peer_filter(options: LocalSyncOptions, remote_capabilities: u32, r: Result<WireFilter, ServerError>) -> bool {
    match options.filter {
        None => r is Ok && r->Ok_0.rules@.len() == 0 && r->Ok_0.exclude_patterns@.map_values(
            |b: Vec<u8>| b@,
        ) == encoded_patterns(options.exclude_patterns@),
        Some(f) => if remote_capabilities & CAP_FILTER_RULES != 0 {
            &&& r is Ok
            &&& r->Ok_0.exclude_patterns@.len() == 0
            &&& r->Ok_0.rules@.map_values(|b: Vec<u8>| b@) == f@.map_values(
                |x: RuleView| filter::encode_rule(x),
            )
        } else if has_include(f@) {
            r is Err && r->Err_0 is FilterUnrepresentable && r->Err_0.spec_text()
                == include_refusal()
        } else {
            r is Ok && r->Ok_0.rules@.len() == 0 && r->Ok_0.exclude_patterns@.map_values(
                |b: Vec<u8>| b@,
            ) == encoded_patterns(options.exclude_patterns@)
        },
    }
}

/// Chooses the wire representation of the transfer's filter.
///
/// A peer advertising ordered rules receives them and an empty exclude list;
/// otherwise the flat exclude list goes, unless the rule set includes
/// anything, which such a peer cannot honour and is refused.
pub fn filter_for_peer(options: &LocalSyncOptions, remote_capabilities: u32) -> (r: Result<
    WireFilter,
    ServerError,
>)
    ensures
        peer_filter(*options, remote_capabilities, r),
{
    match &options.filter {
        None => Ok(
            WireFilter {
                exclude_patterns: encode_exclude_patterns(options.exclude_patterns.as_slice()),
                rules: Vec::new(),
            },
        ),
        Some(f) => {
            if remote_capabilities & CAP_FILTER_RULES != 0 {
                let rules = filter::encode(f);
                assert(rules@.map_values(|b: Vec<u8>| b@) =~= f@.map_values(
                    |x: RuleView| filter::encode_rule(x),
                ));
                return Ok(WireFilter { exclude_patterns: Vec::new(), rules });
            }
            if f.has_includes() {
                let mut message = String::new();
                push_str(
                    &mut message,
                    "--include is not supported against this remote: it is an older xsync that carries only exclude patterns, and sending those alone would transfer more than you asked for. Update the remote, use --exclude/--exclude-from, or run xsync on the remote host so both ends of the filter are local.",
                );
                return Err(ServerError::FilterUnrepresentable(message));
            }
            Ok(
                WireFilter {
                    exclude_patterns: encode_exclude_patterns(options.exclude_patterns.as_slice()),
                    rules: Vec::new(),
                },
            )
        },
    }
}

/// The text of exclude patterns received from a peer, if every one is UTF-8.
pub open spec fn decoded_patterns(patterns: Seq<Seq<u8>>) -> Option<Seq<Seq<char>>> {
    if forall|k: int| 0 <= k < patterns.len() ==> vstd::utf8::valid_utf8(#[trigger] patterns[k]) {
        Some(patterns.map_values(|p: Seq<u8>| vstd::utf8::decode_utf8(p)))
    } else {
        None
    }
}

/// The filter a session applies given what arrived on the wire: the ordered
/// rules when any came, else the flat excludes, each one decoded; nothing
/// when either cannot be read exactly.
pub open spec fn wire_filter(exclude_patterns: Seq<Seq<u8>>, filter_rules: Seq<Seq<u8>>) -> Option<
    Seq<RuleView>,
> {
    if filter_rules.len() > 0 {
        filter::decode_all(filter_rules)
    } else {
        match decoded_patterns(exclude_patterns) {
            Some(p) => if forall|k: int| 0 <= k < p.len() ==> (#[trigger] p[k]).len() > 0 {
                Some(p.map_values(|t: Seq<char>| (Action::Exclude, t, filter::Origin::CommandLine)))
            } else {
                None
            },
            None => None,
        }
    }
}

/// Rebuilds the filter a session applies from whichever representation
/// arrived: the ordered rules when any came, the flat excludes otherwise.
/// Either arm refuses what it cannot read exactly.
pub fn filter_from_wire(exclude_patterns: &[Vec<u8>], filter_rules: &[Vec<u8>]) -> (r: Result<
    FilterSet,
    ServerError,
>)
    ensures
        r is Err ==> r->Err_0 is FilterUnrepresentable,
        r is Ok <==> wire_filter(
            exclude_patterns@.map_values(|l: Vec<u8>| l@),
            filter_rules@.map_values(|l: Vec<u8>| l@),
        ) is Some,
        r matches Ok(f) ==> f@ == wire_filter(
            exclude_patterns@.map_values(|l: Vec<u8>| l@),
            filter_rules@.map_values(|l: Vec<u8>| l@),
        )->Some_0,
        filter_rules@.len() > 0 ==> {
            let lines = filter_rules@.map_values(|l: Vec<u8>| l@);
            &&& (r is Ok <==> filter::decode_all(lines) is Some)
            &&& r is Ok ==> r->Ok_0@ == filter::decode_all(lines)->Some_0
        },
        filter_rules@.len() == 0 ==> {
            let pats = decoded_patterns(exclude_patterns@.map_values(|l: Vec<u8>| l@));
            &&& (r is Ok <==> pats is Some && forall|k: int|
                0 <= k < pats->Some_0.len() ==> (#[trigger] pats->Some_0[k]).len() > 0)
            &&& r is Ok ==> r->Ok_0@.len() == exclude_patterns@.len() && forall|k: int|
                0 <= k < exclude_patterns@.len() ==> #[trigger] r->Ok_0@[k] == (
                    Action::Exclude,
                    pats->Some_0[k],
                    filter::Origin::CommandLine,
                )
        },
{
    if filter_rules.len() > 0 {
        return match filter::decode(filter_rules) {
            Ok(f) => Ok(f),
            Err(e) => {
                let mut message = String::new();
                push_str(&mut message, "peer sent unusable filter rules: ");
                let detail = e.to_string();
                push_str(&mut message, detail.as_str());
                Err(ServerError::FilterUnrepresentable(message))
            },
        };
    }
    let ghost views = exclude_patterns@.map_values(|l: Vec<u8>| l@);
    let mut patterns: Vec<String> = Vec::new();
    for k in 0..exclude_patterns.len()
        invariant
            views == exclude_patterns@.map_values(|l: Vec<u8>| l@),
            filter_rules@.len() == 0,
            patterns@.len() == k,
            forall|m: int| 0 <= m < k ==> vstd::utf8::valid_utf8(#[trigger] views[m]),
            forall|m: int| 0 <= m < k ==> #[trigger] patterns@[m]@ == vstd::utf8::decode_utf8(
                views[m],
            ),
    {
        match utf8_string(exclude_patterns[k].as_slice()) {
            Some(text) => patterns.push(text),
            None => {
                assert(!vstd::utf8::valid_utf8(views[k as int]));
                let mut message = String::new();
                push_str(&mut message, "peer sent an exclude pattern that is not valid UTF-8");
                return Err(ServerError::FilterUnrepresentable(message));
            },
        }
    }
    let ghost pats = decoded_patterns(views);
    assert(pats is Some);
    assert forall|k: int| 0 <= k < patterns@.len() implies #[trigger] patterns@[k]@ == pats->Some_0[k] by {
    }
    let built = filter::from_exclude_patterns(patterns.as_slice());
    proof {
        if built is Err {
            let w = choose|w: int| 0 <= w < patterns@.len() && (#[trigger] patterns@[w])@.len() == 0;
            assert(pats->Some_0[w].len() == 0);
        } else {
            assert forall|m: int| 0 <= m < pats->Some_0.len() implies (
            #[trigger] pats->Some_0[m]).len() > 0 by {
                assert(patterns@[m]@ == pats->Some_0[m]);
                if patterns@[m]@.len() == 0 {
                    assert(exists|w: int|
                        0 <= w < patterns@.len() && (#[trigger] patterns@[w])@.len() == 0);
                }
            }
        }
    }
    match built {
        Ok(f) => {
            assert(f@ =~= pats->Some_0.map_values(
                |t: Seq<char>| (Action::Exclude, t, filter::Origin::CommandLine),
            ));
            Ok(f)
        },
        Err(e) => {
            let mut message = String::new();
            push_str(&mut message, "peer sent an unusable exclude pattern: ");
            let detail = e.to_string();
            push_str(&mut message, detail.as_str());
            Err(ServerError::FilterUnrepresentable(message))
        },
    }
}

/// The filter a client applies to its own scans, as [`local_filter`]
/// builds it.
pub open spec fn own_filter(options: LocalSyncOptions, r: Result<FilterSet, ServerError>) -> bool {
    &&& options.filter is Some ==> r is Ok && r->Ok_0@ == options.filter->Some_0@
    &&& options.filter is None ==> {
        &&& (r is Ok <==> forall|k: int|
            0 <= k < options.exclude_patterns@.len()
                ==> (#[trigger] options.exclude_patterns@[k])@.len() > 0)
        &&& r is Ok ==> r->Ok_0@.len() == options.exclude_patterns@.len() && forall|k: int|
            0 <= k < options.exclude_patterns@.len() ==> #[trigger] r->Ok_0@[k] == (
                Action::Exclude,
                options.exclude_patterns@[k]@,
                filter::Origin::CommandLine,
            )
        &&& r is Err ==> r->Err_0 is FilterUnrepresentable
    }
}

/// The filter a client applies to its own scans: the ordered rule set when
/// the user gave one, the flat excludes otherwise.
pub fn local_filter(options: &LocalSyncOptions) -> (r: Result<FilterSet, ServerError>)
    ensures
        own_filter(*options, r),
{
    match &options.filter {
        Some(f) => Ok(f.clone()),
        None => {
            let encoded = encode_exclude_patterns(options.exclude_patterns.as_slice());
            let empty: Vec<Vec<u8>> = Vec::new();
            let r = filter_from_wire(encoded.as_slice(), empty.as_slice());
            proof {
                let pats = options.exclude_patterns@;
                let views = encoded@.map_values(|l: Vec<u8>| l@);
                assert(views == encoded_patterns(pats));
                assert forall|k: int| 0 <= k < views.len() implies vstd::utf8::valid_utf8(
                    #[trigger] views[k],
                ) by {
                    vstd::utf8::encode_utf8_valid_utf8(pats[k]@);
                }
                assert forall|k: int| 0 <= k < views.len() implies #[trigger] vstd::utf8::decode_utf8(
                    views[k],
                ) == pats[k]@ by {
                    vstd::utf8::encode_utf8_decode_utf8(pats[k]@);
                }
                let d = decoded_patterns(views);
                assert(d is Some);
                assert forall|k: int| 0 <= k < pats.len() implies #[trigger] d->Some_0[k] == pats[k]@ by {
                    assert(d->Some_0[k] == vstd::utf8::decode_utf8(views[k]));
                }
                if forall|k: int| 0 <= k < pats.len() ==> (#[trigger] pats[k])@.len() > 0 {
                    assert forall|k: int| 0 <= k < d->Some_0.len() implies (
                    #[trigger] d->Some_0[k]).len() > 0 by {
                        assert(pats[k]@.len() > 0);
                    }
                }
                if forall|k: int| 0 <= k < d->Some_0.len() ==> (#[trigger] d->Some_0[k]).len() > 0 {
                    assert forall|k: int| 0 <= k < pats.len() implies (
                    #[trigger] pats[k])@.len() > 0 by {
                        assert(d->Some_0[k].len() > 0);
                    }
                }
                if r is Ok {
                    assert forall|k: int| 0 <= k < pats.len() implies #[trigger] r->Ok_0@[k] == (
                        Action::Exclude,
                        pats[k]@,
                        filter::Origin::CommandLine,
                    ) by {
                        assert(d->Some_0[k] == pats[k]@);
                    }
                }
            }
            r
        },
    }
}

/// Whether permission bits may be compared with this peer: both ends must
/// carry real Unix modes, or every file would look permanently drifted.
pub fn modes_comparable(local_unix_modes: bool, remote_capabilities: u32) -> (r: bool)
    ensures
        r <==> local_unix_modes && remote_capabilities & CAP_UNIX_MODES != 0,
{
    local_unix_modes && (remote_capabilities & CAP_UNIX_MODES != 0)
}

/// Whether a byte position lies in a range.
pub open spec fn in_range(r: ByteRange, x: int) -> bool {
    r.offset <= x < r.offset + r.length
}

/// Whether a byte position lies in one of the first `n` ranges.
pub open spec fn covered_by(ranges: Seq<ByteRange>, n: int, x: int) -> bool {
    exists|k: int| 0 <= k < n && in_range(#[trigger] ranges[k], x)
}

/// Whether every byte of a file of `size` bytes lies in one of the ranges.
pub open spec fn ranges_cover(size: u64, ranges: Seq<ByteRange>) -> bool {
    forall|x: int| 0 <= x < size ==> #[trigger] covered_by(ranges, ranges.len() as int, x)
}

/// Whether ranges are ordered by offset.
pub open spec fn sorted_by_offset(s: Seq<ByteRange>) -> bool {
    forall|i: int, j: int| 0 <= i <= j < s.len() ==> (#[trigger] s[i]).offset <= (#[trigger] s[j]).offset
}

/// Whether two range lists hold the same ranges.
pub open spec fn same_ranges(a: Seq<ByteRange>, b: Seq<ByteRange>) -> bool {
    &&& forall|i: int| 0 <= i < a.len() ==> b.contains(#[trigger] a[i])
    &&& forall|j: int| 0 <= j < b.len() ==> a.contains(#[trigger] b[j])
}

pub(crate) fn sort_by_offset(ranges: &[ByteRange]) -> (r: Vec<ByteRange>)
    ensures
        sorted_by_offset(r@),
        same_ranges(r@, ranges@),
{
    let mut out: Vec<ByteRange> = Vec::new();
    for k in 0..ranges.len()
        invariant
            sorted_by_offset(out@),
            forall|i: int| 0 <= i < out@.len() ==> ranges@.take(k as int).contains(#[trigger] out@[i]),
            forall|j: int| 0 <= j < k ==> out@.contains(#[trigger] ranges@[j]),
    {
        let item = ranges[k];
        let mut p: usize = out.len();
        while p > 0 && out[p - 1].offset > item.offset
            invariant
                p <= out@.len(),
                forall|i: int| p <= i < out@.len() ==> (#[trigger] out@[i]).offset > item.offset,
            decreases p,
        {
            p = p - 1;
        }
        let ghost before = out@;
        out.insert(p, item);
        proof {
            assert(out@ == before.insert(p as int, item));
            assert forall|i: int, j: int| 0 <= i <= j < out@.len() implies (#[trigger] out@[i]).offset
                <= (#[trigger] out@[j]).offset by {
                if i < p as int && j > p as int {
                    assert(out@[i] == before[i]);
                    assert(out@[j] == before[j - 1]);
                } else if i < p as int && j == p as int {
                    assert(out@[i] == before[i]);
                    if p > 0 {
                        assert(before[p - 1].offset <= item.offset);
                        assert(before[i].offset <= before[p - 1].offset);
                    }
                } else if i == p as int && j > p as int {
                    assert(out@[j] == before[j - 1]);
                } else if i > p as int {
                    assert(out@[i] == before[i - 1]);
                    assert(out@[j] == before[j - 1]);
                } else if j < p as int {
                    assert(out@[i] == before[i]);
                    assert(out@[j] == before[j]);
                }
            }
            assert forall|i: int| 0 <= i < out@.len() implies ranges@.take(k as int + 1).contains(
                #[trigger] out@[i],
            ) by {
                if i == p as int {
                    assert(ranges@.take(k as int + 1)[k as int] == item);
                } else {
                    let b = if i < p as int { i } else { i - 1 };
                    assert(out@[i] == before[b]);
                    let w = choose|w: int| 0 <= w < k && ranges@.take(k as int)[w] == before[b];
                    assert(ranges@.take(k as int + 1)[w] == before[b]);
                }
            }
            assert forall|j: int| 0 <= j < k + 1 implies out@.contains(#[trigger] ranges@[j]) by {
                if j == k as int {
                    assert(out@[p as int] == item);
                } else {
                    assert(before.contains(ranges@[j]));
                    let w = choose|w: int| 0 <= w < before.len() && before[w] == ranges@[j];
                    if w < p as int {
                        assert(out@[w] == before[w]);
                    } else {
                        assert(out@[w + 1] == before[w]);
                    }
                }
            }
        }
    }
    assert(ranges@.take(ranges@.len() as int) =~= ranges@);
    out
}

/// Whether the received ranges of a file cover all of its `size` bytes.
pub fn ranges_cover_file(size: u64, ranges: &[ByteRange]) -> (r: bool)
    ensures
        r == ranges_cover(size, ranges@),
{
    if size == 0 {
        return true;
    }
    let ordered = sort_by_offset(ranges);
    let mut cursor: u64 = 0;
    let mut k: usize = 0;
    while k < ordered.len()
        invariant
            0 < size,
            cursor < size,
            k <= ordered@.len(),
            sorted_by_offset(ordered@),
            same_ranges(ordered@, ranges@),
            forall|x: int| 0 <= x < cursor ==> #[trigger] covered_by(ordered@, k as int, x),
            forall|m: int| 0 <= m < k ==> (#[trigger] ordered@[m]).offset + ordered@[m].length
                <= cursor,
        decreases ordered@.len() - k,
    {
        let range = ordered[k];
        if range.offset > cursor {
            proof {
                lemma_gap_uncovered(size, ranges@, ordered@, k as int, cursor as int);
            }
            return false;
        }
        let end = range.offset.saturating_add(range.length);
        let old_cursor = cursor;
        if end > cursor {
            cursor = end;
        }
        proof {
            assert forall|x: int| 0 <= x < cursor implies #[trigger] covered_by(
                ordered@,
                k as int + 1,
                x,
            ) by {
                if x < old_cursor {
                    assert(covered_by(ordered@, k as int, x));
                    let m = choose|m: int| 0 <= m < k && in_range(ordered@[m], x);
                    assert(in_range(ordered@[m], x));
                } else {
                    assert(in_range(ordered@[k as int], x));
                }
            }
        }
        if cursor >= size {
            proof {
                assert forall|x: int| 0 <= x < size implies #[trigger] covered_by(
                    ranges@,
                    ranges@.len() as int,
                    x,
                ) by {
                    assert(covered_by(ordered@, k as int + 1, x));
                    let m = choose|m: int| 0 <= m < k + 1 && in_range(ordered@[m], x);
                    assert(ranges@.contains(ordered@[m]));
                    let j = choose|j: int| 0 <= j < ranges@.len() && ranges@[j] == ordered@[m];
                    assert(in_range(ranges@[j], x));
                }
            }
            return true;
        }
        k = k + 1;
    }
    proof {
        lemma_gap_uncovered(size, ranges@, ordered@, k as int, cursor as int);
    }
    false
}

proof fn lemma_gap_uncovered(
    size: u64,
    ranges: Seq<ByteRange>,
    ordered: Seq<ByteRange>,
    k: int,
    cursor: int,
)
    requires
        0 <= cursor < size,
        0 <= k <= ordered.len(),
        sorted_by_offset(ordered),
        same_ranges(ordered, ranges),
        forall|m: int| 0 <= m < k ==> (#[trigger] ordered[m]).offset + ordered[m].length <= cursor,
        k < ordered.len() ==> ordered[k].offset > cursor,
    ensures
        !ranges_cover(size, ranges),
{
    if ranges_cover(size, ranges) {
        assert(covered_by(ranges, ranges.len() as int, cursor));
        let j = choose|j: int| 0 <= j < ranges.len() && in_range(#[trigger] ranges[j], cursor);
        assert(ordered.contains(ranges[j]));
        let m = choose|m: int| 0 <= m < ordered.len() && ordered[m] == ranges[j];
        if m < k {
            assert(ordered[m].offset + ordered[m].length <= cursor);
        } else {
            assert(ordered[k].offset <= ordered[m].offset);
        }
    }
}

/// The key a session's job identifier is derived from: the two endpoints'
/// UTF-8 bytes joined by a NUL byte.
pub open spec fn job_key(left: Seq<char>, right: Seq<char>) -> Seq<u8> {
    vstd::utf8::encode_utf8(left) + seq![0u8] + vstd::utf8::encode_utf8(right)
}

/// The job identifier both ends of a session agree on: the first sixteen
/// bytes of the BLAKE3 digest of the two endpoints joined by a NUL byte.
pub fn session_job_id(left: &str, right: &str) -> (r: [u8; 16])
    ensures
        r@ == blake3_hash(job_key(left@, right@)).take(16),
{
    let mut key = string_bytes(left);
    key.push(0u8);
    let mut tail = string_bytes(right);
    key.append(&mut tail);
    assert(key@ =~= job_key(left@, right@));
    let digest = blake3_digest(key.as_slice());
    let mut out = [0u8; 16];
    for i in 0..16
        invariant
            digest@ == blake3_hash(job_key(left@, right@)),
            digest@.len() == 32,
            forall|m: int| 0 <= m < i ==> #[trigger] out@[m] == digest@[m],
    {
        out[i] = digest[i];
    }
    assert(out@ =~= digest@.take(16));
    out
}

/// The directory a push's source entries land under at the destination,
/// by the trailing-slash convention: a directory named without a trailing
/// slash is recreated by its name, with one only its contents are copied;
/// a single file's scan already names the file.
pub open spec fn spec_push_prefix(source_is_dir: bool, trailing_slash: bool, basename: Seq<char>) -> Seq<char> {
    if source_is_dir && !trailing_slash {
        basename
    } else {
        Seq::empty()
    }
}

/// The directory a push's source entries land under at the destination.
pub fn push_prefix(source_is_dir: bool, trailing_slash: bool, basename: &str) -> (r: String)
    ensures
        r@ == spec_push_prefix(source_is_dir, trailing_slash, basename@),
{
    let mut prefix = String::new();
    if source_is_dir && !trailing_slash {
        push_str(&mut prefix, basename);
    }
    prefix
}

/// The directory a pull's source entries land under at the destination: the
/// source's name unless it was given with a trailing slash.
pub fn pull_prefix(trailing_slash: bool, basename: &str) -> (r: String)
    ensures
        r@ == (if trailing_slash { Seq::<char>::empty() } else { basename@ }),
{
    let mut prefix = String::new();
    if !trailing_slash {
        push_str(&mut prefix, basename);
    }
    prefix
}

} // verus!

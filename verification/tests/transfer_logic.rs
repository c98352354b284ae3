use xsync_core::protocol::Message;
use xsync_core::push_finish::{covered_bytes, finish_frames, LargeFileRanges};
use xsync_core::browse::{
    fetch_chunk_step, fetch_start_reply, fetched_digest_matches, publish_chunk_offset,
    publish_final_reply, publish_first_reply, FetchedFile, PublishStep,
};
use xsync_core::error::ServerError;
use xsync_core::protocol::{ByteRange, PublishStatus, V2Message, CAP_UNIX_MODES};
use xsync_core::scan::FileIdentity;
use xsync_core::striping::{partition_work, split_by_size, stripe};
use xsync_core::transfer::{modes_comparable, pull_prefix, push_prefix, ranges_cover_file, session_job_id};
use xsync_core::wire_path::WirePath;

fn range(offset: u64, length: u64) -> ByteRange {
    ByteRange { offset, length }
}

#[test]
fn ranges_cover_a_file_in_any_order_and_a_gap_is_noticed() {
    assert!(ranges_cover_file(0, &[]));
    assert!(ranges_cover_file(10, &[range(5, 5), range(0, 5)]));
    assert!(ranges_cover_file(10, &[range(0, 7), range(3, 7)]));
    assert!(!ranges_cover_file(10, &[range(0, 4), range(5, 5)]));
    assert!(!ranges_cover_file(10, &[range(0, 9)]));
    assert!(ranges_cover_file(u64::MAX, &[range(0, u64::MAX), range(1, u64::MAX)]));
}

#[test]
fn the_job_id_is_the_digest_prefix_of_both_endpoints() {
    let digest = blake3::hash(b"left\0right");
    let id = session_job_id("left", "right");
    assert_eq!(&id[..], &digest.as_bytes()[..16]);
    assert_ne!(session_job_id("a", "bc"), session_job_id("ab", "c"));
}

#[test]
fn permission_bits_are_compared_only_when_both_ends_have_them() {
    assert!(modes_comparable(true, CAP_UNIX_MODES));
    assert!(!modes_comparable(false, CAP_UNIX_MODES));
    assert!(!modes_comparable(true, 0));
}

#[test]
fn a_fetch_starts_with_the_files_facts_or_the_peers_refusal() {
    let start = V2Message::FetchStart { related_id: 5, size: 3, mtime_ns: 9, device: 1, file: 2, digest: [7; 32] };
    assert_eq!(
        fetch_start_reply(5, start).unwrap(),
        FetchedFile { size: 3, mtime_ns: 9, identity: FileIdentity { device: 1, file: 2 }, digest: [7; 32] }
    );
    let refused = V2Message::BrowseError { related_id: 5, code: 4, message: b"no".to_vec() };
    assert_eq!(
        fetch_start_reply(5, refused).unwrap_err(),
        ServerError::RemoteError { code: 4, message: "no".to_owned() }
    );
    assert_eq!(
        fetch_start_reply(5, V2Message::Keepalive { nonce: 1 }).unwrap_err(),
        ServerError::UnexpectedMessage("expected FetchStart, got Keepalive".to_owned())
    );
}

#[test]
fn fetch_chunks_must_arrive_in_order_and_within_the_size() {
    let chunk = |offset, data: &[u8]| V2Message::FetchChunk { related_id: 5, offset, data: data.to_vec() };
    assert_eq!(fetch_chunk_step(5, 6, 0, chunk(0, b"abc")).unwrap(), (3, b"abc".to_vec()));
    assert_eq!(
        fetch_chunk_step(5, 6, 3, chunk(4, b"d")).unwrap_err(),
        ServerError::UnexpectedMessage("fetch chunk is out of order".to_owned())
    );
    assert_eq!(
        fetch_chunk_step(5, 4, 3, chunk(3, b"de")).unwrap_err(),
        ServerError::UnexpectedMessage("fetch exceeded advertised size".to_owned())
    );
    assert_eq!(
        fetch_chunk_step(5, 4, 0, V2Message::Keepalive { nonce: 0 }).unwrap_err(),
        ServerError::UnexpectedMessage("expected FetchChunk while fetching".to_owned())
    );
    let fetched = FetchedFile { size: 3, mtime_ns: 0, identity: FileIdentity { device: 0, file: 0 }, digest: *blake3::hash(b"abc").as_bytes() };
    assert!(fetched_digest_matches(&fetched, b"abc"));
    assert!(!fetched_digest_matches(&fetched, b"abd"));
}

#[test]
fn a_publish_is_answered_at_once_or_after_its_content() {
    assert_eq!(publish_first_reply(2, V2Message::PublishReady { related_id: 2 }), PublishStep::Ready);
    let response = V2Message::PublishResponse {
        related_id: 2,
        status: PublishStatus::Changed,
        current_present: false,
        size: 0,
        mtime_ns: 0,
        device: 0,
        file: 0,
        error: Vec::new(),
    };
    assert_eq!(publish_first_reply(2, response.clone()), PublishStep::Answered(response.clone()));
    assert_eq!(publish_final_reply(response.clone()).unwrap(), response);
    assert!(matches!(publish_first_reply(2, V2Message::PublishReady { related_id: 3 }), PublishStep::Fail(_)));
    assert_eq!(publish_chunk_offset(3), 3 * 1024 * 1024);
}

#[test]
fn multi_stream_work_is_dealt_round_robin() {
    assert_eq!(stripe(7, 3), vec![vec![0, 3, 6], vec![1, 4], vec![2, 5]]);
    assert_eq!(stripe(2, 4), vec![vec![0], vec![1], vec![], vec![]]);
    assert_eq!(stripe(0, 1), vec![Vec::<usize>::new()]);
    let (small, large) = split_by_size(&[10, 4096, 0, 9000], 4096);
    assert_eq!(small, vec![0, 1, 2]);
    assert_eq!(large, vec![3]);
}

#[test]
fn sources_land_under_their_name_unless_given_with_a_trailing_slash() {
    assert_eq!(push_prefix(true, false, "photos"), "photos");
    assert_eq!(push_prefix(true, true, "photos"), "");
    assert_eq!(push_prefix(false, false, "file.txt"), "");
    assert_eq!(pull_prefix(false, "photos"), "photos");
    assert_eq!(pull_prefix(true, "photos"), "");

    let prefix = WirePath::from_wire(b"photos".to_vec()).unwrap();
    let path = WirePath::from_wire(b"2024/a.jpg".to_vec()).unwrap();
    let mapped = path.with_prefix(&prefix);
    assert_eq!(mapped.as_bytes(), b"photos/2024/a.jpg");
    assert_eq!(mapped.strip_dir_prefix(&prefix).unwrap().as_bytes(), b"2024/a.jpg");
    let root = WirePath::from_wire(Vec::new()).unwrap();
    assert_eq!(root.with_prefix(&prefix).as_bytes(), b"photos");
    assert!(prefix.strip_dir_prefix(&prefix).is_none());
    let other = WirePath::from_wire(b"photoshop/x".to_vec()).unwrap();
    assert!(other.strip_dir_prefix(&prefix).is_none());
    assert_eq!(path.with_prefix(&root).as_bytes(), b"2024/a.jpg");
}

#[test]
fn the_finish_barrier_counts_each_byte_once_and_refuses_a_short_file() {
    let r = |offset, length| ByteRange { offset, length };
    assert_eq!(covered_bytes(&[r(8, 4), r(0, 10), r(12, 0), r(20, 5)]), 17);
    assert_eq!(covered_bytes(&[]), 0);
    let whole = LargeFileRanges {
        file_id: 7,
        path: "big.bin".to_owned(),
        size: 16,
        verified: vec![r(0, 8)],
        assigned: vec![r(4, 12)],
    };
    let short = LargeFileRanges {
        file_id: 8,
        path: "short.bin".to_owned(),
        size: 16,
        verified: vec![r(0, 8)],
        assigned: vec![r(10, 6)],
    };
    let frames = finish_frames(&[whole], &[[1; 32]]).unwrap();
    assert_eq!(frames, vec![Message::LargeFileFinish { file_id: 7, digest: [1; 32] }]);
    let whole = LargeFileRanges {
        file_id: 7,
        path: "big.bin".to_owned(),
        size: 16,
        verified: vec![r(0, 8)],
        assigned: vec![r(4, 12)],
    };
    let error = finish_frames(&[whole, short], &[[1; 32], [2; 32]]).unwrap_err();
    assert_eq!(
        error,
        xsync_core::error::ServerError::UnexpectedMessage(
            "large file short.bin covered 14 of 16 bytes; ranges lost across streams".to_owned()
        )
    );
}

#[test]
fn a_multi_stream_push_deals_every_range_and_small_file_to_one_session() {
    let r = |offset, length| ByteRange { offset, length };
    let missing = vec![vec![r(0, 8), r(8, 8), r(16, 8)], vec![], vec![r(0, 4), r(4, 4)]];
    let work = partition_work(&missing, 3, 2);
    assert_eq!(work.len(), 2);
    assert_eq!(work[0].ranges, vec![(0, r(0, 8)), (0, r(16, 8)), (2, r(4, 4))]);
    assert_eq!(work[1].ranges, vec![(0, r(8, 8)), (2, r(0, 4))]);
    assert_eq!(work[0].small, vec![0, 2]);
    assert_eq!(work[1].small, vec![1]);
}

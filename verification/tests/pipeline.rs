use std::io::Write;

use fetch_variant::codec::BLOCK_SIZE;
use fetch_variant::error::{ErrorKind, FetchError};
use fetch_variant::pipeline::{decoded_action, Action, Decoded, Event, Fetch, Stage};

/// One LZ4 frame that holds `payload`.
fn frame_of(payload: &[u8]) -> Vec<u8> {
    let mut encoder = lz4::EncoderBuilder::new()
        .build(Vec::new())
        .expect("an encoder");
    encoder.write_all(payload).expect("compressing");
    let (frame, result) = encoder.finish();
    result.expect("finishing the frame");
    frame
}

/// A payload of `len` bytes that does not compress to nothing.
fn payload_of(len: usize) -> Vec<u8> {
    let mut payload = Vec::with_capacity(len);
    let mut state: u32 = 12345;
    for i in 0..len {
        state = state.wrapping_mul(1_103_515_245).wrapping_add(12345);
        if i % 7 < 3 {
            payload.push((state >> 16) as u8);
        } else {
            payload.push((i % 251) as u8);
        }
    }
    payload
}

fn begin(name: &str) -> Fetch {
    let (fetch, first) = Fetch::new("/trust/root.json", "https://repo/meta/", "https://repo/targets/", "/images", name);
    assert_eq!(
        first,
        Action::LoadRepository {
            root_role_path: "/trust/root.json".to_string(),
            metadata_url: "https://repo/meta/".to_string(),
            targets_url: "https://repo/targets/".to_string(),
        }
    );
    assert_eq!(fetch.stage(), Stage::Start);
    fetch
}

/// A fetch that has resolved its target and awaits the stream.
fn resolved(name: &str) -> Fetch {
    let mut fetch = begin(name);
    assert_eq!(
        fetch.step(Event::RepositoryLoaded),
        Action::ReadTarget { name: format!("{}.img.lz4", name) }
    );
    assert_eq!(fetch.stage(), Stage::RepoLoaded);
    assert_eq!(fetch.step(Event::TargetFound), Action::NextChunk);
    assert_eq!(fetch.stage(), Stage::TargetResolved);
    fetch
}

/// Streams `compressed` in chunks of `chunk` bytes, answers every action as a
/// repository and a filesystem without faults would, and returns what was
/// written and the last action.
fn stream_through(fetch: &mut Fetch, compressed: &[u8], chunk: usize) -> (Vec<u8>, Action) {
    for piece in compressed.chunks(chunk) {
        assert_eq!(fetch.step(Event::Chunk(piece.to_vec())), Action::NextChunk);
        assert_eq!(fetch.stage(), Stage::TargetResolved);
    }
    let mut file: Vec<u8> = Vec::new();
    let mut action = fetch.step(Event::StreamEnded);
    loop {
        action = match action {
            Action::OpenFile { .. } => {
                assert_eq!(fetch.stage(), Stage::StreamOpened);
                fetch.step(Event::FileOpened)
            }
            Action::Write { block } => {
                assert_eq!(fetch.stage(), Stage::Decompressing);
                assert!(!block.is_empty());
                assert!(block.len() <= BLOCK_SIZE);
                file.extend_from_slice(&block);
                fetch.step(Event::BlockWritten)
            }
            last => return (file, last),
        };
    }
}

fn fetch_all(name: &str, compressed: &[u8], chunk: usize) -> (Fetch, Vec<u8>, Action) {
    let mut fetch = resolved(name);
    let (file, last) = stream_through(&mut fetch, compressed, chunk);
    (fetch, file, last)
}

#[test]
fn worker_image_is_written_byte_for_byte() {
    let payload = b"IMAGEDATA\0";
    assert_eq!(payload.len(), 10);
    let compressed = frame_of(payload);

    let mut fetch = begin("worker-x86_64");
    assert_eq!(
        fetch.step(Event::RepositoryLoaded),
        Action::ReadTarget { name: "worker-x86_64.img.lz4".to_string() }
    );
    assert_eq!(fetch.step(Event::TargetFound), Action::NextChunk);
    assert_eq!(fetch.step(Event::Chunk(compressed)), Action::NextChunk);
    assert!(!fetch.file_requested());
    assert_eq!(
        fetch.step(Event::StreamEnded),
        Action::OpenFile { path: "/images/worker-x86_64.img.lz4".to_string() }
    );
    assert!(fetch.file_requested());
    assert_eq!(fetch.stage(), Stage::StreamOpened);
    assert_eq!(fetch.step(Event::FileOpened), Action::Write { block: payload.to_vec() });
    assert_eq!(fetch.stage(), Stage::Decompressing);
    assert_eq!(fetch.step(Event::BlockWritten), Action::Done);
    assert_eq!(fetch.stage(), Stage::Written);
    assert_eq!(fetch.failure(), None);
}

#[test]
fn missing_target_fails_and_touches_no_file() {
    let mut fetch = begin("missing-variant");
    assert_eq!(
        fetch.step(Event::RepositoryLoaded),
        Action::ReadTarget { name: "missing-variant.img.lz4".to_string() }
    );
    let expected = FetchError::TargetMissing { target: "missing-variant.img.lz4".to_string() };
    assert_eq!(fetch.step(Event::TargetAbsent), Action::Fail(expected.clone()));
    assert_eq!(fetch.stage(), Stage::Failed);
    assert_eq!(fetch.failure(), Some(expected));
    assert!(!fetch.file_requested());
}

#[test]
fn round_trip_of_a_large_image() {
    let payload = payload_of(5 * BLOCK_SIZE + 777);
    let compressed = frame_of(&payload);
    let (fetch, file, last) = fetch_all("big", &compressed, 4096);
    assert_eq!(last, Action::Done);
    assert_eq!(fetch.stage(), Stage::Written);
    assert_eq!(file, payload);
}

#[test]
fn round_trip_whatever_the_chunking() {
    let payload = payload_of(70_000);
    let compressed = frame_of(&payload);
    for chunk in [1usize, 2, 3, 11, 1000, 32768, 1 << 20] {
        let (fetch, file, last) = fetch_all("any", &compressed, chunk);
        assert_eq!(last, Action::Done);
        assert_eq!(fetch.stage(), Stage::Written);
        assert_eq!(file, payload);
    }
}

#[test]
fn two_fetches_of_one_target_write_the_same_bytes() {
    let payload = payload_of(100_000);
    let compressed = frame_of(&payload);
    let (_, first, first_end) = fetch_all("twice", &compressed, 8192);
    let (_, second, second_end) = fetch_all("twice", &compressed, 500);
    assert_eq!(first_end, Action::Done);
    assert_eq!(second_end, Action::Done);
    assert_eq!(first, second);
    assert_eq!(first, payload);
}

#[test]
fn empty_chunks_change_nothing() {
    let payload = payload_of(300);
    let compressed = frame_of(&payload);
    let mut fetch = resolved("gaps");
    assert_eq!(fetch.step(Event::Chunk(Vec::new())), Action::NextChunk);
    let (half, rest) = compressed.split_at(compressed.len() / 2);
    assert_eq!(fetch.step(Event::Chunk(half.to_vec())), Action::NextChunk);
    assert_eq!(fetch.step(Event::Chunk(Vec::new())), Action::NextChunk);
    let (file, last) = stream_through(&mut fetch, rest, 64);
    assert_eq!(last, Action::Done);
    assert_eq!(file, payload);
}

#[test]
fn frame_of_an_empty_payload_gives_an_empty_file() {
    let compressed = frame_of(b"");
    assert!(!compressed.is_empty());
    let mut fetch = resolved("empty");
    assert_eq!(fetch.step(Event::Chunk(compressed)), Action::NextChunk);
    assert_eq!(
        fetch.step(Event::StreamEnded),
        Action::OpenFile { path: "/images/empty.img.lz4".to_string() }
    );
    assert_eq!(fetch.step(Event::FileOpened), Action::Done);
    assert_eq!(fetch.stage(), Stage::Written);
}

#[test]
fn stream_without_bytes_is_no_frame() {
    let (fetch, file, last) = fetch_all("nothing", &[], 1);
    assert!(file.is_empty());
    match last {
        Action::Fail(FetchError::DecompressionError { target, .. }) => {
            assert_eq!(target, "nothing.img.lz4")
        }
        other => panic!("not a decompression failure: {:?}", other),
    }
    assert_eq!(fetch.stage(), Stage::Failed);
    assert_eq!(fetch.failure().map(|e| e.kind()), Some(ErrorKind::DecompressionError));
}

#[test]
fn stream_cut_after_its_data_fails_after_the_data() {
    let payload = payload_of(1000);
    let compressed = frame_of(&payload);
    let cut = &compressed[..compressed.len() - 2];
    let (fetch, file, last) = fetch_all("cut", cut, 100);
    match last {
        Action::Fail(FetchError::DecompressionError { target, .. }) => {
            assert_eq!(target, "cut.img.lz4")
        }
        other => panic!("not a decompression failure: {:?}", other),
    }
    assert_eq!(fetch.stage(), Stage::Failed);
    assert!(fetch.file_requested());
    assert!(fetch.failure().is_some());
    assert!(file.len() <= payload.len());
    assert_eq!(file[..], payload[..file.len()]);
}

#[test]
fn stream_cut_mid_frame_never_reports_success() {
    let payload = payload_of(3 * BLOCK_SIZE);
    let compressed = frame_of(&payload);
    for keep in [1usize, 4, 7, 9, 20, compressed.len() / 2, compressed.len() - 5, compressed.len() - 1] {
        let (fetch, file, last) = fetch_all("cut", &compressed[..keep], 1000);
        assert!(
            matches!(last, Action::Fail(FetchError::DecompressionError { .. })),
            "kept {} bytes: {:?}",
            keep,
            last
        );
        assert_eq!(fetch.stage(), Stage::Failed);
        assert!(file.len() < payload.len() || keep >= compressed.len() - 8);
    }
}

#[test]
fn stream_that_is_no_frame_fails_decoding() {
    let garbage: Vec<u8> = (0..200u32).map(|i| (i * 37 % 256) as u8).collect();
    let (fetch, file, last) = fetch_all("garbage", &garbage, 50);
    assert!(file.is_empty());
    assert!(matches!(last, Action::Fail(FetchError::DecompressionError { .. })));
    assert_eq!(fetch.stage(), Stage::Failed);
}

#[test]
fn refused_repository_is_a_repo_load_failure() {
    let mut fetch = begin("any");
    let expected = FetchError::RepoLoad {
        metadata_base_url: "https://repo/meta/".to_string(),
        cause: "expired metadata".to_string(),
    };
    assert_eq!(
        fetch.step(Event::RepositoryRefused("expired metadata".to_string())),
        Action::Fail(expected.clone())
    );
    assert_eq!(fetch.stage(), Stage::Failed);
    assert_eq!(fetch.failure(), Some(expected));
}

#[test]
fn traversal_in_the_name_is_refused_before_the_target_is_asked_for() {
    let mut fetch = begin("../../etc/passwd");
    assert_eq!(fetch.target(), "../../etc/passwd.img.lz4");
    let action = fetch.step(Event::RepositoryLoaded);
    assert_eq!(
        action,
        Action::Fail(FetchError::TargetName {
            target: "../../etc/passwd.img.lz4".to_string(),
            cause: "the name leads out of the output directory".to_string(),
        })
    );
    assert_eq!(fetch.stage(), Stage::Failed);
    assert!(!fetch.file_requested());
    assert_eq!(fetch.step(Event::TargetFound), Action::Unexpected);
}

#[test]
fn absolute_name_is_refused() {
    let mut fetch = begin("/etc/passwd");
    match fetch.step(Event::RepositoryLoaded) {
        Action::Fail(error) => assert_eq!(error.kind(), ErrorKind::TargetName),
        other => panic!("not refused: {:?}", other),
    }
}

#[test]
fn unreadable_target_is_a_target_read_failure() {
    let mut fetch = begin("any");
    fetch.step(Event::RepositoryLoaded);
    let expected = FetchError::TargetRead {
        target: "any.img.lz4".to_string(),
        cause: "connection reset".to_string(),
    };
    assert_eq!(
        fetch.step(Event::TargetUnreadable("connection reset".to_string())),
        Action::Fail(expected)
    );
    assert_eq!(fetch.stage(), Stage::Failed);
    assert!(!fetch.file_requested());
}

#[test]
fn stream_failure_is_a_target_read_failure_and_no_file_is_asked_for() {
    let payload = payload_of(5000);
    let compressed = frame_of(&payload);
    let mut fetch = resolved("torn");
    assert_eq!(fetch.step(Event::Chunk(compressed[..100].to_vec())), Action::NextChunk);
    let expected = FetchError::TargetRead {
        target: "torn.img.lz4".to_string(),
        cause: "hash mismatch".to_string(),
    };
    assert_eq!(
        fetch.step(Event::StreamFailed("hash mismatch".to_string())),
        Action::Fail(expected.clone())
    );
    assert_eq!(fetch.stage(), Stage::Failed);
    assert_eq!(fetch.failure(), Some(expected));
    assert!(!fetch.file_requested());
    assert_eq!(fetch.step(Event::StreamEnded), Action::Unexpected);
}

#[test]
fn refused_file_is_an_open_failure_with_the_path() {
    let compressed = frame_of(b"some image");
    let mut fetch = resolved("locked");
    fetch.step(Event::Chunk(compressed));
    assert_eq!(
        fetch.step(Event::StreamEnded),
        Action::OpenFile { path: "/images/locked.img.lz4".to_string() }
    );
    let expected = FetchError::OpenImageFile {
        path: "/images/locked.img.lz4".to_string(),
        cause: "permission denied".to_string(),
    };
    assert_eq!(
        fetch.step(Event::FileRefused("permission denied".to_string())),
        Action::Fail(expected)
    );
    assert_eq!(fetch.stage(), Stage::Failed);
    assert!(fetch.file_requested());
}

#[test]
fn failed_write_is_a_write_failure_with_the_path() {
    let payload = payload_of(2 * BLOCK_SIZE);
    let compressed = frame_of(&payload);
    let mut fetch = resolved("full");
    fetch.step(Event::Chunk(compressed));
    fetch.step(Event::StreamEnded);
    assert!(matches!(fetch.step(Event::FileOpened), Action::Write { .. }));
    let expected = FetchError::WriteUpdate {
        path: "/images/full.img.lz4".to_string(),
        cause: "disk full".to_string(),
    };
    assert_eq!(
        fetch.step(Event::WriteFailed("disk full".to_string())),
        Action::Fail(expected.clone())
    );
    assert_eq!(fetch.stage(), Stage::Failed);
    assert_eq!(fetch.failure(), Some(expected));
    assert_eq!(fetch.step(Event::BlockWritten), Action::Unexpected);
}

#[test]
fn events_out_of_turn_move_nothing() {
    let mut fetch = begin("steady");
    for event in [
        Event::TargetFound,
        Event::TargetAbsent,
        Event::Chunk(vec![1, 2, 3]),
        Event::StreamEnded,
        Event::FileOpened,
        Event::BlockWritten,
        Event::WriteFailed("late".to_string()),
    ] {
        assert_eq!(fetch.step(event), Action::Unexpected);
        assert_eq!(fetch.stage(), Stage::Start);
    }
    fetch.step(Event::RepositoryLoaded);
    for event in [
        Event::RepositoryLoaded,
        Event::RepositoryRefused("again".to_string()),
        Event::Chunk(vec![1]),
        Event::StreamFailed("early".to_string()),
        Event::FileRefused("early".to_string()),
    ] {
        assert_eq!(fetch.step(event), Action::Unexpected);
        assert_eq!(fetch.stage(), Stage::RepoLoaded);
    }
    fetch.step(Event::TargetFound);
    assert_eq!(fetch.step(Event::TargetFound), Action::Unexpected);
    assert_eq!(fetch.step(Event::FileOpened), Action::Unexpected);
    assert_eq!(fetch.stage(), Stage::TargetResolved);
    assert_eq!(fetch.failure(), None);
}

#[test]
fn nothing_follows_a_written_image() {
    let compressed = frame_of(b"done");
    let (mut fetch, file, last) = fetch_all("done", &compressed, 3);
    assert_eq!(last, Action::Done);
    assert_eq!(file, b"done");
    assert_eq!(fetch.step(Event::BlockWritten), Action::Unexpected);
    assert_eq!(fetch.step(Event::Chunk(vec![9])), Action::Unexpected);
    assert_eq!(fetch.stage(), Stage::Written);
}

#[test]
fn path_of_the_destination() {
    let fetch = begin("worker-x86_64");
    assert_eq!(fetch.path(), "/images/worker-x86_64.img.lz4");
    assert_eq!(fetch.target(), "worker-x86_64.img.lz4");
}

#[test]
fn action_for_each_answer_of_the_decoder() {
    assert_eq!(
        decoded_action("t.img.lz4", Decoded::Block(vec![1, 2, 3])),
        Action::Write { block: vec![1, 2, 3] }
    );
    assert_eq!(decoded_action("t.img.lz4", Decoded::Finished), Action::Done);
    assert_eq!(
        decoded_action("t.img.lz4", Decoded::Broken("bad block".to_string())),
        Action::Fail(FetchError::DecompressionError {
            target: "t.img.lz4".to_string(),
            cause: "bad block".to_string(),
        })
    );
}

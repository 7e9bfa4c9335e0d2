use sourceforge_dl::transfer::begin;
use sourceforge_dl::transfer::range_header;
use sourceforge_dl::transfer::step;
use sourceforge_dl::transfer::TransferAction;
use sourceforge_dl::transfer::TransferEvent;
use sourceforge_dl::transfer::TransferState;
use sourceforge_dl::transfer::RETRY_LIMIT;

/// Plays a scripted stream: each inner list is one response, ending in a
/// failure (`None`) or cleanly. Returns what was written, the offsets that
/// were requested, and the last action.
fn play(responses: &[(Vec<&[u8]>, bool)]) -> (Vec<u8>, Vec<u64>, TransferAction, TransferState) {
    let mut file: Vec<u8> = Vec::new();
    let mut offsets: Vec<u64> = Vec::new();
    let (mut state, mut action) = begin();
    for (chunks, fails) in responses {
        match action {
            TransferAction::Request { offset } => offsets.push(offset),
            _ => panic!("a response was played without a request"),
        }
        for chunk in chunks {
            file.extend_from_slice(chunk);
            let (s, a) = step(state, TransferEvent::ChunkWritten(chunk.len() as u64));
            assert_eq!(a, TransferAction::ReadOn);
            state = s;
        }
        let event = if *fails { TransferEvent::StreamFailed } else { TransferEvent::StreamEnded };
        let (s, a) = step(state, event);
        state = s;
        action = a;
        if action == TransferAction::Fail || action == TransferAction::Finish {
            break;
        }
    }
    (file, offsets, action, state)
}

#[test]
fn begin_requests_the_whole_artifact() {
    let (state, action) = begin();
    assert_eq!(state, TransferState { saved_len: 0, retry_num: 1 });
    assert_eq!(action, TransferAction::Request { offset: 0 });
    assert_eq!(RETRY_LIMIT, 5);
}

#[test]
fn two_failures_then_success_resume_at_the_written_offset() {
    let (file, offsets, action, state) = play(&[
        (vec![b"abc", b"de"], true),
        (vec![b"fgh"], true),
        (vec![b"ij", b"k"], false),
    ]);
    assert_eq!(file, b"abcdefghijk");
    assert_eq!(offsets, vec![0, 5, 8]);
    assert_eq!(action, TransferAction::Finish);
    assert_eq!(state, TransferState { saved_len: 11, retry_num: 3 });
}

#[test]
fn five_failures_in_a_row_are_fatal() {
    let (file, offsets, action, state) = play(&[
        (vec![b"abc"], true),
        (vec![], true),
        (vec![], true),
        (vec![], true),
        (vec![], true),
        (vec![b"never read"], false),
    ]);
    assert_eq!(action, TransferAction::Fail);
    assert_eq!(file, b"abc");
    assert_eq!(offsets, vec![0, 3, 3, 3, 3]);
    assert_eq!(state, TransferState { saved_len: 3, retry_num: 5 });
}

#[test]
fn four_failures_are_still_retried() {
    let (file, offsets, action, _) =
        play(&[(vec![], true), (vec![], true), (vec![], true), (vec![], true), (vec![b"x"], false)]);
    assert_eq!(action, TransferAction::Finish);
    assert_eq!(file, b"x");
    assert_eq!(offsets, vec![0, 0, 0, 0, 0]);
}

#[test]
fn empty_response_is_a_finished_transfer_of_nothing() {
    let (file, offsets, action, state) = play(&[(vec![], false)]);
    assert_eq!(action, TransferAction::Finish);
    assert!(file.is_empty());
    assert_eq!(offsets, vec![0]);
    assert_eq!(state.saved_len, 0);
}

#[test]
fn step_counts_a_chunk() {
    let s = TransferState { saved_len: 40, retry_num: 2 };
    assert_eq!(
        step(s, TransferEvent::ChunkWritten(2)),
        (TransferState { saved_len: 42, retry_num: 2 }, TransferAction::ReadOn)
    );
    assert_eq!(
        step(s, TransferEvent::ChunkWritten(u64::MAX - 40)),
        (TransferState { saved_len: u64::MAX, retry_num: 2 }, TransferAction::ReadOn)
    );
}

#[test]
fn step_retries_below_the_limit_and_fails_at_it() {
    let s = TransferState { saved_len: 7, retry_num: 4 };
    assert_eq!(
        step(s, TransferEvent::StreamFailed),
        (TransferState { saved_len: 7, retry_num: 5 }, TransferAction::Request { offset: 7 })
    );
    let s = TransferState { saved_len: 7, retry_num: 5 };
    assert_eq!(step(s, TransferEvent::StreamFailed), (s, TransferAction::Fail));
    assert_eq!(step(s, TransferEvent::StreamEnded), (s, TransferAction::Finish));
}

#[test]
fn range_header_names_the_offset() {
    assert_eq!(range_header(0), "bytes=0-");
    assert_eq!(range_header(5), "bytes=5-");
    assert_eq!(range_header(1048576), "bytes=1048576-");
    assert_eq!(range_header(u64::MAX), "bytes=18446744073709551615-");
}

//! Tests for the chunked upload engine and the transfer handle.

use shapir::api::items::{ChunkState, PostOutcome, TransferHandle, WriteStep};
use shapir::Error;

fn flush_of(step: WriteStep) -> shapir::api::items::ChunkRequest {
    match step {
        WriteStep::Flush(req) => req,
        WriteStep::Buffered => panic!("expected a flush"),
    }
}

#[test]
fn single_write_splits_into_two_chunks() {
    let mut engine = ChunkState::new("https://up.example/x?id=1".to_string(), 20000, 16384);
    let data = vec![7u8; 20000];

    let req0 = flush_of(engine.write(&data).unwrap());
    assert_eq!(req0.index, 0);
    assert_eq!(req0.offset, 0);
    assert_eq!(req0.finish, false);
    assert_eq!(req0.body.len(), 16384);
    engine.resolve(PostOutcome::Status(200)).unwrap();

    let req1 = engine.next_flush().unwrap();
    assert_eq!(req1.index, 1);
    assert_eq!(req1.offset, 16384);
    assert_eq!(req1.finish, true);
    assert_eq!(req1.body.len(), 3616);
    engine.resolve(PostOutcome::Status(200)).unwrap();

    assert!(engine.next_flush().is_none());
    assert!(engine.is_complete());
    assert_eq!(engine.bytes_confirmed(), 20000);
    assert_eq!(engine.chunk_index(), 2);
    assert_eq!(engine.pending_len(), 0);
}

#[test]
fn short_writes_buffer_then_flush_once() {
    let mut engine = ChunkState::new("https://up.example/x?id=1".to_string(), 100, 16384);

    match engine.write(&[1u8; 40]).unwrap() {
        WriteStep::Buffered => {},
        WriteStep::Flush(_) => panic!("first write must only buffer"),
    }
    assert_eq!(engine.pending_len(), 40);
    assert_eq!(engine.bytes_confirmed(), 0);

    let req = flush_of(engine.write(&[2u8; 60]).unwrap());
    assert_eq!(req.index, 0);
    assert_eq!(req.offset, 0);
    assert_eq!(req.finish, true);
    assert_eq!(req.body.len(), 100);
    engine.resolve(PostOutcome::Status(204)).unwrap();

    assert!(engine.is_complete());
    assert_eq!(engine.bytes_confirmed(), 100);
    assert_eq!(engine.chunk_index(), 1);
}

#[test]
fn failed_chunk_leaves_state_and_retry_reproduces_request() {
    let mut engine = ChunkState::new("https://up.example/x?id=1".to_string(), 100, 16384);
    match engine.write(&[1u8; 40]).unwrap() {
        WriteStep::Buffered => {},
        WriteStep::Flush(_) => panic!("first write must only buffer"),
    }

    let req1 = flush_of(engine.write(&[2u8; 60]).unwrap());
    let outcome = engine.resolve(PostOutcome::Status(500));
    assert!(matches!(outcome, Err(Error::RemoteRejected(500))));

    assert_eq!(engine.bytes_confirmed(), 0);
    assert_eq!(engine.chunk_index(), 0);
    assert_eq!(engine.pending_len(), 40);

    let req2 = flush_of(engine.write(&[2u8; 60]).unwrap());
    assert_eq!(req2.index, req1.index);
    assert_eq!(req2.offset, req1.offset);
    assert_eq!(req2.filehash, req1.filehash);
    assert_eq!(req2.body, req1.body);
    assert_eq!(req2.url, req1.url);
}

#[test]
fn transport_failure_reports_cause_and_rolls_back() {
    let mut engine = ChunkState::new("https://up.example/x?id=1".to_string(), 10, 4);
    let req = flush_of(engine.write(&[9u8; 10]).unwrap());
    assert_eq!(req.body.len(), 4);
    let outcome = engine.resolve(PostOutcome::Failed("connection reset".to_string()));
    match outcome {
        Err(Error::Transport(cause)) => assert_eq!(cause, "connection reset"),
        _ => panic!("expected a transport error"),
    }
    assert_eq!(engine.bytes_confirmed(), 0);
    assert_eq!(engine.chunk_index(), 0);
    assert_eq!(engine.pending_len(), 0);
}

#[test]
fn write_after_completion_fails_with_size_exceeded() {
    let mut engine = ChunkState::new("https://up.example/x?id=1".to_string(), 5, 16384);
    let _ = flush_of(engine.write(&[1u8; 5]).unwrap());
    engine.resolve(PostOutcome::Status(200)).unwrap();
    assert!(engine.is_complete());
    assert!(matches!(engine.write(&[1u8; 1]), Err(Error::SizeExceeded)));
    assert_eq!(engine.bytes_confirmed(), 5);
    assert_eq!(engine.pending_len(), 0);
}

#[test]
fn oversized_write_is_rejected_unchanged() {
    let mut engine = ChunkState::new("https://up.example/x?id=1".to_string(), 100, 16384);
    assert!(matches!(engine.write(&[1u8; 101]), Err(Error::SizeExceeded)));
    assert_eq!(engine.pending_len(), 0);
    assert_eq!(engine.bytes_confirmed(), 0);
}

#[test]
fn chunk_filehash_is_md5_of_payload() {
    let mut engine = ChunkState::new("https://up.example/x?id=1".to_string(), 3, 16384);
    let req = flush_of(engine.write(b"abc").unwrap());
    assert_eq!(req.filehash, "900150983cd24fb0d6963f7d28e17f72");
    assert_eq!(req.filehash, format!("{:x}", md5::compute(b"abc")));
}

#[test]
fn chunk_url_carries_all_parameters() {
    let mut engine = ChunkState::new("https://up.example/x?id=1".to_string(), 3, 16384);
    let req = flush_of(engine.write(b"abc").unwrap());
    assert_eq!(
        req.url,
        "https://up.example/x?id=1&finish=true&index=0&offset=0&filehash=900150983cd24fb0d6963f7d28e17f72"
    );
}

#[test]
fn chunk_url_omits_finish_on_intermediate_chunks() {
    let mut engine = ChunkState::new("https://up.example/x?id=1".to_string(), 10, 4);
    let req = flush_of(engine.write(&[0x61u8; 10]).unwrap());
    assert_eq!(req.body.len(), 4);
    assert_eq!(
        req.url,
        format!(
            "https://up.example/x?id=1&index=0&offset=0&filehash={:x}",
            md5::compute(&[0x61u8; 4])
        )
    );
}

#[test]
fn write_mode_handle_rejects_reading() {
    let engine = ChunkState::new("https://up.example/x?id=1".to_string(), 10, 4);
    let handle = TransferHandle::for_writing(engine);
    assert!(!handle.can_read());
    assert!(matches!(handle.check_read_mode(), Err(Error::ModeViolation)));
}

#[test]
fn read_mode_handle_rejects_writing() {
    let mut handle = TransferHandle::for_reading();
    assert!(handle.can_read());
    assert!(handle.check_read_mode().is_ok());
    assert!(matches!(handle.write(&[1u8; 4]), Err(Error::ModeViolation)));
    assert!(matches!(handle.next_flush(), Err(Error::ModeViolation)));
}

#[test]
fn write_mode_handle_drives_the_engine() {
    let engine = ChunkState::new("https://up.example/x?id=1".to_string(), 8, 4);
    let mut handle = TransferHandle::for_writing(engine);
    let req = match handle.write(&[5u8; 8]).unwrap() {
        WriteStep::Flush(req) => req,
        WriteStep::Buffered => panic!("expected a flush"),
    };
    assert_eq!(req.body.len(), 4);
    assert_eq!(handle.resolve(PostOutcome::Status(200)).unwrap(), 4);
    let req2 = handle.next_flush().unwrap().unwrap();
    assert_eq!(req2.offset, 4);
    assert!(req2.finish);
    assert_eq!(handle.resolve(PostOutcome::Status(200)).unwrap(), 4);
    assert!(handle.next_flush().unwrap().is_none());
}

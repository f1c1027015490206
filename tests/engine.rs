use iso_maker::engine::{CopyEngine, EngineAction, EngineEvent, EnginePhase};
use iso_maker::outcome::{ErrorKind, TransferError, TransferOutcome};
use iso_maker::CHUNK_SIZE;

const MIB: usize = 1024 * 1024;

struct Run {
    outcome: TransferOutcome,
    written: Vec<u8>,
    samples: Vec<u64>,
    destination_created: bool,
    reads: usize,
}

#[derive(Clone, Copy)]
enum Fault {
    Clean,
    Metadata,
    Destination,
    ReadAt(usize),
    WriteAt(usize),
}

fn pseudo_random(len: usize, seed: u64) -> Vec<u8> {
    let mut state = seed;
    let mut out = Vec::with_capacity(len);
    for _ in 0..len {
        state = state.wrapping_mul(6364136223846793005).wrapping_add(1442695040888963407);
        out.push((state >> 33) as u8);
    }
    out
}

/// Runs the engine over an in-memory source. `cancel_after` is the number of
/// completed chunk writes after which the cancellation signal fires
/// (`Some(0)`: before the first read).
fn drive(source: Option<&[u8]>, reported_size: Option<u64>, cancel_after: Option<usize>, fault: Fault) -> Run {
    let mut engine = CopyEngine::new();
    let mut action = EngineAction::OpenSource;
    let mut pos = 0usize;
    let mut writes = 0usize;
    let mut run = Run {
        outcome: TransferOutcome::Cancelled,
        written: Vec::new(),
        samples: Vec::new(),
        destination_created: false,
        reads: 0,
    };
    loop {
        let event = match action {
            EngineAction::OpenSource => match source {
                Some(_) => EngineEvent::SourceOpened,
                None => EngineEvent::SourceOpenFailed("No such file or directory (os error 2)".to_string()),
            },
            EngineAction::QueryMetadata => match fault {
                Fault::Metadata => EngineEvent::MetadataFailed("permission denied".to_string()),
                _ => EngineEvent::SizeKnown(reported_size.unwrap_or(source.unwrap().len() as u64)),
            },
            EngineAction::OpenDestination => match fault {
                Fault::Destination => EngineEvent::DestinationOpenFailed("read-only file system".to_string()),
                _ => {
                    run.destination_created = true;
                    EngineEvent::DestinationOpened
                }
            },
            EngineAction::ReadChunk | EngineAction::ReportAndRead(_) => {
                if let EngineAction::ReportAndRead(s) = action {
                    run.samples.push(s);
                }
                if cancel_after == Some(writes) {
                    EngineEvent::CancelObserved
                } else if matches!(fault, Fault::ReadAt(k) if k == run.reads) {
                    EngineEvent::ReadFailed("input/output error".to_string())
                } else {
                    let src = source.unwrap();
                    let end = std::cmp::min(pos + CHUNK_SIZE, src.len());
                    let chunk = src[pos..end].to_vec();
                    pos = end;
                    run.reads += 1;
                    EngineEvent::ChunkRead(chunk)
                }
            }
            EngineAction::WriteChunk(bytes) => {
                if matches!(fault, Fault::WriteAt(k) if k == writes) {
                    EngineEvent::WriteFailed("no space left on device".to_string())
                } else {
                    run.written.extend_from_slice(&bytes);
                    writes += 1;
                    EngineEvent::ChunkWritten
                }
            }
            EngineAction::Finish(outcome) => {
                run.outcome = outcome;
                break;
            }
            EngineAction::Ignore => panic!("the engine ignored an event of its own protocol"),
        };
        action = engine.step(event);
    }
    assert_eq!(engine.phase(), EnginePhase::Finished);
    run
}

fn failure(outcome: &TransferOutcome) -> &TransferError {
    match outcome {
        TransferOutcome::Failed(e) => e,
        other => panic!("expected a failure, got {:?}", other),
    }
}

#[test]
fn chunk_size_is_four_mib() {
    assert_eq!(CHUNK_SIZE, 4 * MIB);
}

#[test]
fn scenario_full_copy_of_ten_mib() {
    let source = pseudo_random(10 * MIB, 7);
    let run = drive(Some(&source), None, None, Fault::Clean);
    assert!(matches!(run.outcome, TransferOutcome::Success));
    assert_eq!(run.samples, vec![(4 * MIB) as u64, (8 * MIB) as u64, (10 * MIB) as u64]);
    assert!(run.written == source);
}

#[test]
fn scenario_cancel_after_first_chunk() {
    let source = pseudo_random(10 * MIB, 11);
    let run = drive(Some(&source), None, Some(1), Fault::Clean);
    assert!(matches!(run.outcome, TransferOutcome::Cancelled));
    assert_eq!(run.written.len(), 4 * MIB);
    assert!(run.written[..] == source[..4 * MIB]);
    assert_eq!(run.samples, vec![(4 * MIB) as u64]);
}

#[test]
fn scenario_missing_source() {
    let run = drive(None, None, None, Fault::Clean);
    let e = failure(&run.outcome);
    assert_eq!(e.kind, ErrorKind::SourceOpen);
    assert_eq!(e.message(), "source error: No such file or directory (os error 2)");
    assert!(!run.destination_created);
    assert!(run.written.is_empty());
}

#[test]
fn cancel_before_first_read_writes_nothing() {
    let source = pseudo_random(3 * MIB, 3);
    let run = drive(Some(&source), None, Some(0), Fault::Clean);
    assert!(matches!(run.outcome, TransferOutcome::Cancelled));
    assert!(run.written.is_empty());
    assert!(run.samples.is_empty());
    assert_eq!(run.reads, 0);
}

#[test]
fn copy_reproduces_bytes_of_odd_length() {
    let source = pseudo_random(2 * CHUNK_SIZE + 123, 5);
    let run = drive(Some(&source), None, None, Fault::Clean);
    assert!(matches!(run.outcome, TransferOutcome::Success));
    assert!(run.written == source);
    assert_eq!(*run.samples.last().unwrap(), source.len() as u64);
}

#[test]
fn empty_source_succeeds_with_no_samples() {
    let run = drive(Some(&[]), None, None, Fault::Clean);
    assert!(matches!(run.outcome, TransferOutcome::Success));
    assert!(run.written.is_empty());
    assert!(run.samples.is_empty());
    assert!(run.destination_created);
}

#[test]
fn samples_never_exceed_the_size_found_at_start() {
    let source = pseudo_random(9 * MIB, 13);
    let run = drive(Some(&source), Some((5 * MIB) as u64), None, Fault::Clean);
    assert!(matches!(run.outcome, TransferOutcome::Success));
    assert_eq!(run.samples, vec![(4 * MIB) as u64, (5 * MIB) as u64, (5 * MIB) as u64]);
    assert!(run.samples.windows(2).all(|w| w[0] <= w[1]));
    assert!(run.written == source);
}

#[test]
fn metadata_failure_is_reported() {
    let source = pseudo_random(10, 1);
    let run = drive(Some(&source), None, None, Fault::Metadata);
    let e = failure(&run.outcome);
    assert_eq!(e.kind, ErrorKind::Metadata);
    assert_eq!(e.message(), "metadata error: permission denied");
    assert!(!run.destination_created);
}

#[test]
fn destination_failure_is_reported() {
    let source = pseudo_random(10, 1);
    let run = drive(Some(&source), None, None, Fault::Destination);
    let e = failure(&run.outcome);
    assert_eq!(e.kind, ErrorKind::DestinationOpen);
    assert_eq!(e.message(), "destination error: read-only file system");
}

#[test]
fn read_failure_stops_the_copy() {
    let source = pseudo_random(10 * MIB, 17);
    let run = drive(Some(&source), None, None, Fault::ReadAt(1));
    let e = failure(&run.outcome);
    assert_eq!(e.kind, ErrorKind::Read);
    assert_eq!(e.message(), "read error: input/output error");
    assert_eq!(run.written.len(), 4 * MIB);
}

#[test]
fn write_failure_stops_the_copy() {
    let source = pseudo_random(10 * MIB, 19);
    let run = drive(Some(&source), None, None, Fault::WriteAt(2));
    let e = failure(&run.outcome);
    assert_eq!(e.kind, ErrorKind::Write);
    assert_eq!(e.message(), "write error: no space left on device");
    assert_eq!(run.written.len(), 8 * MIB);
    assert_eq!(run.samples, vec![(4 * MIB) as u64, (8 * MIB) as u64]);
}

#[test]
fn events_out_of_phase_are_ignored() {
    let mut engine = CopyEngine::new();
    assert!(matches!(engine.step(EngineEvent::ChunkWritten), EngineAction::Ignore));
    assert!(matches!(engine.step(EngineEvent::SizeKnown(5)), EngineAction::Ignore));
    assert_eq!(engine.phase(), EnginePhase::OpeningSource);
    assert!(matches!(engine.step(EngineEvent::SourceOpened), EngineAction::QueryMetadata));
    assert!(matches!(engine.step(EngineEvent::SizeKnown(5)), EngineAction::OpenDestination));
    assert_eq!(engine.total(), 5);
    assert!(matches!(engine.step(EngineEvent::DestinationOpened), EngineAction::ReadChunk));
    match engine.step(EngineEvent::ChunkRead(vec![1, 2, 3])) {
        EngineAction::WriteChunk(b) => assert_eq!(b, vec![1, 2, 3]),
        other => panic!("unexpected {:?}", other),
    }
    assert!(matches!(engine.step(EngineEvent::ChunkRead(vec![4])), EngineAction::Ignore));
    assert!(matches!(engine.step(EngineEvent::ChunkWritten), EngineAction::ReportAndRead(3)));
    assert_eq!(engine.copied(), 3);
}

#[test]
fn finished_engine_ignores_late_cancel() {
    let mut engine = CopyEngine::new();
    engine.step(EngineEvent::SourceOpened);
    engine.step(EngineEvent::SizeKnown(0));
    engine.step(EngineEvent::DestinationOpened);
    assert!(matches!(engine.step(EngineEvent::ChunkRead(Vec::new())), EngineAction::Finish(TransferOutcome::Success)));
    assert!(matches!(engine.step(EngineEvent::CancelObserved), EngineAction::Ignore));
    assert_eq!(engine.phase(), EnginePhase::Finished);
}

#[test]
fn cancel_during_setup_ends_cancelled() {
    let mut engine = CopyEngine::new();
    engine.step(EngineEvent::SourceOpened);
    assert!(matches!(engine.step(EngineEvent::CancelObserved), EngineAction::Finish(TransferOutcome::Cancelled)));
}

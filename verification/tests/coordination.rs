use aleph_node::chain::{BlockRecord, ChainState};
use aleph_node::composer::{peer_set_protocols, Composer, Event, Protocol, Stage};
use aleph_node::errors::{ChannelClosed, FinalizeError, ImportFailure, RuntimeQueryError, StartupError};
use aleph_node::metrics::LatencyMetrics;
use aleph_node::notification::JustificationNotification;
use aleph_node::queue::NotificationQueue;
use aleph_node::slots::{inherent_data, run_slot, SlotOutcome};
use aleph_node::timing::{resolve_timing, MillisecsPerBlock, SessionPeriod};

fn note(block_hash: u64, number: u64) -> JustificationNotification {
    JustificationNotification { block_hash, number, justification: vec![0xAA, block_hash as u8] }
}

#[test]
fn resolve_timing_returns_both_values() {
    let t = resolve_timing(Some(900), Some(1000)).unwrap();
    assert_eq!(t.session_period(), SessionPeriod(900));
    assert_eq!(t.millisecs_per_block(), MillisecsPerBlock(1000));
    // Repeated reads return identical values.
    assert_eq!(t.session_period(), t.session_period());
    assert_eq!(t.millisecs_per_block(), t.millisecs_per_block());
}

#[test]
fn resolve_timing_fails_without_session_period() {
    assert_eq!(resolve_timing(None, Some(1000)), Err(RuntimeQueryError::SessionPeriod));
    assert_eq!(resolve_timing(None, None), Err(RuntimeQueryError::SessionPeriod));
}

#[test]
fn resolve_timing_fails_without_millisecs_per_block() {
    assert_eq!(resolve_timing(Some(900), None), Err(RuntimeQueryError::MillisecsPerBlock));
}

#[test]
fn import_accepts_genesis_and_children() {
    let mut chain = ChainState::new();
    assert_eq!(chain.import_block(BlockRecord { hash: 10, number: 0, parent: 0 }, true), Ok(()));
    assert_eq!(chain.import_block(BlockRecord { hash: 11, number: 1, parent: 10 }, true), Ok(()));
    assert!(chain.is_imported(10));
    assert!(chain.is_imported(11));
    assert!(!chain.is_imported(12));
}

#[test]
fn import_rejects_invalid_seal() {
    let mut chain = ChainState::new();
    assert_eq!(
        chain.import_block(BlockRecord { hash: 10, number: 0, parent: 0 }, false),
        Err(ImportFailure::InvalidSeal)
    );
    assert!(!chain.is_imported(10));
}

#[test]
fn import_rejects_missing_parent() {
    let mut chain = ChainState::new();
    assert_eq!(
        chain.import_block(BlockRecord { hash: 11, number: 1, parent: 10 }, true),
        Err(ImportFailure::MissingParent)
    );
    assert!(!chain.is_imported(11));
}

#[test]
fn reimport_of_same_hash_is_not_doubled() {
    let mut chain = ChainState::new();
    let b = BlockRecord { hash: 10, number: 0, parent: 0 };
    assert_eq!(chain.import_block(b, true), Ok(()));
    assert_eq!(chain.import_block(b, true), Ok(()));
    assert_eq!(chain.imported.len(), 1);
}

#[test]
fn finalize_before_import_fails() {
    let mut chain = ChainState::new();
    assert_eq!(chain.finalize(10), Err(FinalizeError::NotImported));
    assert_eq!(chain.finalized.len(), 0);
}

#[test]
fn finalize_is_idempotent() {
    let mut chain = ChainState::new();
    chain.import_block(BlockRecord { hash: 10, number: 0, parent: 0 }, true).unwrap();
    assert_eq!(chain.finalize(10), Ok(true));
    let imported_before = chain.imported.clone();
    let finalized_before = chain.finalized.clone();
    // The second call produces no change in chain state and no error.
    assert_eq!(chain.finalize(10), Ok(false));
    assert_eq!(chain.imported, imported_before);
    assert_eq!(chain.finalized, finalized_before);
    assert_eq!(chain.finalized.len(), 1);
}

#[test]
fn queue_delivers_in_enqueue_order() {
    let mut q = NotificationQueue::new();
    assert_eq!(q.enqueue(note(1, 1)), Ok(()));
    assert_eq!(q.enqueue(note(0, 0)), Ok(()));
    assert_eq!(q.enqueue(note(2, 2)), Ok(()));
    assert_eq!(q.len(), 3);
    let drained = q.drain();
    let order: Vec<u64> = drained.iter().map(|n| n.block_hash).collect();
    assert_eq!(order, vec![1, 0, 2]);
    assert_eq!(q.len(), 0);
}

#[test]
fn queue_dequeues_the_oldest_first() {
    let mut q = NotificationQueue::new();
    q.enqueue(note(7, 3)).unwrap();
    q.enqueue(note(8, 4)).unwrap();
    let first = q.dequeue().unwrap();
    assert_eq!(first.block_hash, 7);
    assert_eq!(first.number, 3);
    let second = q.dequeue().unwrap();
    assert_eq!(second.block_hash, 8);
    assert!(q.dequeue().is_none());
}

#[test]
fn queue_rejects_after_receiver_dropped() {
    let mut q = NotificationQueue::new();
    q.enqueue(note(1, 1)).unwrap();
    q.close_receiver();
    assert_eq!(q.enqueue(note(2, 2)), Err(ChannelClosed));
    assert_eq!(q.len(), 0);
}

#[test]
fn metrics_measure_round_trip_latency() {
    let mut m = LatencyMetrics::new();
    m.record_enqueue(10, 100);
    assert_eq!(m.observe_finalized(10, 350), Some(250));
    assert_eq!(m.observe_finalized(11, 350), None);
}

#[test]
fn metrics_keep_the_first_enqueue_timestamp() {
    let mut m = LatencyMetrics::new();
    m.record_enqueue(10, 100);
    m.record_enqueue(10, 200);
    assert_eq!(m.observe_finalized(10, 300), Some(200));
}

#[test]
fn metrics_read_zero_latency_on_backwards_clock() {
    let mut m = LatencyMetrics::new();
    m.record_enqueue(10, 500);
    assert_eq!(m.observe_finalized(10, 400), Some(0));
}

#[test]
fn both_peer_set_protocols_are_registered_in_order() {
    assert_eq!(peer_set_protocols(), vec![Protocol::Generic, Protocol::Validator]);
}

#[test]
fn composer_walks_the_stages_in_order() {
    let mut c = Composer::new();
    assert_eq!(c.stage(), Stage::Unconfigured);
    assert_eq!(c.handle(Event::PartialBuilt(true)), Ok(()));
    assert_eq!(c.stage(), Stage::PartialComponents);
    assert_eq!(c.handle(Event::NetworkBuilt(true)), Ok(()));
    assert_eq!(c.stage(), Stage::NetworkStarted);
    assert!(c.timing().is_none());
    assert_eq!(c.handle(Event::TimingResolved(Some(900), Some(1000))), Ok(()));
    assert_eq!(c.stage(), Stage::Running);
    let t = c.timing().unwrap();
    assert_eq!(t.session_period(), SessionPeriod(900));
    assert_eq!(c.handle(Event::ShutdownSignal), Ok(()));
    assert_eq!(c.stage(), Stage::ShuttingDown);
}

#[test]
fn composer_reports_fatal_startup_failures() {
    let mut c = Composer::new();
    assert_eq!(c.handle(Event::PartialBuilt(false)), Err(StartupError::ComponentConstruction));
    assert_eq!(c.stage(), Stage::Unconfigured);
    c.handle(Event::PartialBuilt(true)).unwrap();
    assert_eq!(c.handle(Event::NetworkBuilt(false)), Err(StartupError::NetworkConstruction));
    assert_eq!(c.stage(), Stage::PartialComponents);
    c.handle(Event::NetworkBuilt(true)).unwrap();
    assert_eq!(
        c.handle(Event::TimingResolved(None, Some(1000))),
        Err(StartupError::Timing(RuntimeQueryError::SessionPeriod))
    );
    assert_eq!(c.stage(), Stage::NetworkStarted);
}

#[test]
fn composer_timing_stays_constant_once_running() {
    let mut c = Composer::new();
    c.handle(Event::PartialBuilt(true)).unwrap();
    c.handle(Event::NetworkBuilt(true)).unwrap();
    c.handle(Event::TimingResolved(Some(900), Some(1000))).unwrap();
    let resolved = c.timing();
    // Later query results — the underlying runtime state changing — do not
    // touch the resolved values.
    assert_eq!(c.handle(Event::TimingResolved(Some(30), Some(6000))), Ok(()));
    assert_eq!(c.timing(), resolved);
    assert_eq!(c.handle(Event::ShutdownSignal), Ok(()));
    assert_eq!(c.timing(), resolved);
}

#[test]
fn composer_shuts_down_when_channel_closes() {
    let mut c = Composer::new();
    c.handle(Event::PartialBuilt(true)).unwrap();
    c.handle(Event::NetworkBuilt(true)).unwrap();
    c.handle(Event::TimingResolved(Some(900), Some(1000))).unwrap();
    assert_eq!(c.stage(), Stage::Running);
    assert_eq!(c.handle(Event::ChannelClosed), Ok(()));
    assert_eq!(c.stage(), Stage::ShuttingDown);
}

#[test]
fn inherent_data_derives_the_slot_index() {
    let d = inherent_data(2500, MillisecsPerBlock(1000)).unwrap();
    assert_eq!(d.timestamp_ms, 2500);
    assert_eq!(d.slot, 2);
    assert_eq!(inherent_data(999, MillisecsPerBlock(1000)).unwrap().slot, 0);
    assert!(inherent_data(2500, MillisecsPerBlock(0)).is_none());
}

#[test]
fn a_slot_without_authority_is_a_skip() {
    let mut chain = ChainState::new();
    let b = BlockRecord { hash: 10, number: 0, parent: 0 };
    assert_eq!(run_slot(&mut chain, false, Some(b), true), SlotOutcome::Skipped);
    assert_eq!(chain.imported.len(), 0);
}

#[test]
fn a_failed_proposal_does_not_abort_later_slots() {
    let mut chain = ChainState::new();
    assert_eq!(run_slot(&mut chain, true, None, true), SlotOutcome::ProposalFailed);
    let bad = BlockRecord { hash: 10, number: 0, parent: 0 };
    assert_eq!(
        run_slot(&mut chain, true, Some(bad), false),
        SlotOutcome::ImportRejected(ImportFailure::InvalidSeal)
    );
    // The next slot still authors normally.
    let good = BlockRecord { hash: 11, number: 0, parent: 0 };
    assert_eq!(run_slot(&mut chain, true, Some(good), true), SlotOutcome::Imported(11));
    assert!(chain.is_imported(11));
}

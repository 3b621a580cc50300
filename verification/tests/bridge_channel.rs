use aleph_node::bridge::JustificationBridge;
use aleph_node::chain::{BlockRecord, ChainState};
use aleph_node::channel::{new_justification_channel, poll_notification, send_notification, ChannelPoll};
use aleph_node::composer::{Composer, Event, Stage};
use aleph_node::errors::ChannelClosed;
use aleph_node::finality::{apply_notification, pump_finality, NotificationOutcome, PumpOutcome};
use aleph_node::notification::JustificationNotification;
use aleph_node::timing::resolve_timing;

fn note(block_hash: u64, number: u64) -> JustificationNotification {
    JustificationNotification { block_hash, number, justification: vec![0xEE, block_hash as u8] }
}

#[test]
fn channel_delivers_messages_in_send_order() {
    let (tx, mut rx) = new_justification_channel();
    assert!(send_notification(&tx, note(1, 1)).is_ok());
    assert!(send_notification(&tx, note(0, 0)).is_ok());
    assert!(send_notification(&tx, note(2, 2)).is_ok());
    let mut order = Vec::new();
    for _ in 0..3 {
        match poll_notification(&mut rx) {
            ChannelPoll::Message(n) => order.push(n.block_hash),
            _ => panic!("expected a pending notification"),
        }
    }
    assert_eq!(order, vec![1, 0, 2]);
    assert!(matches!(poll_notification(&mut rx), ChannelPoll::Pending));
}

#[test]
fn channel_reports_termination_after_sender_dropped() {
    let (tx, mut rx) = new_justification_channel();
    send_notification(&tx, note(5, 5)).unwrap();
    drop(tx);
    match poll_notification(&mut rx) {
        ChannelPoll::Message(n) => assert_eq!(n.block_hash, 5),
        _ => panic!("the pending notification must still be delivered"),
    }
    assert!(matches!(poll_notification(&mut rx), ChannelPoll::Terminated));
}

#[test]
fn send_error_hands_the_message_back() {
    let (tx, rx) = new_justification_channel();
    drop(rx);
    let n = note(9, 9);
    let back = send_notification(&tx, n.clone()).unwrap_err();
    assert_eq!(back, n);
}

#[test]
fn bridge_accepts_justifications_and_records_enqueue_time() {
    let (tx, mut rx) = new_justification_channel();
    let mut bridge = JustificationBridge::new(tx);
    let mut chain = ChainState::new();
    bridge
        .import_block(&mut chain, BlockRecord { hash: 10, number: 0, parent: 0 }, true)
        .unwrap();
    assert_eq!(bridge.import_justification(10, 0, vec![1, 2, 3], 100), Ok(()));
    // The finality task applies the notification 250 ms later.
    let outcome = pump_finality(&mut chain, &bridge.metrics, &mut rx, 350);
    assert_eq!(outcome, PumpOutcome::Applied(10, NotificationOutcome::Finalized(Some(250))));
    assert!(chain.is_finalized(10));
}

#[test]
fn bridge_surfaces_channel_closed_and_triggers_shutdown() {
    let (tx, rx) = new_justification_channel();
    let mut bridge = JustificationBridge::new(tx);
    drop(rx);
    // The very next justification import surfaces the fatal condition.
    assert_eq!(bridge.import_justification(10, 0, vec![1], 100), Err(ChannelClosed));
    // The composer turns it into an orderly shutdown.
    let mut c = Composer::new();
    c.handle(Event::PartialBuilt(true)).unwrap();
    c.handle(Event::NetworkBuilt(true)).unwrap();
    c.handle(Event::TimingResolved(Some(900), Some(1000))).unwrap();
    c.handle(Event::ChannelClosed).unwrap();
    assert_eq!(c.stage(), Stage::ShuttingDown);
}

#[test]
fn notification_for_unimported_block_awaits_import() {
    let (tx, _rx) = new_justification_channel();
    let bridge = JustificationBridge::new(tx);
    let mut chain = ChainState::new();
    let n = note(42, 1);
    let outcome = apply_notification(&mut chain, &bridge.metrics, &n, 10);
    assert_eq!(outcome, NotificationOutcome::AwaitingImport);
    assert!(!chain.is_finalized(42));
}

#[test]
fn repeated_justification_is_already_final_not_an_error() {
    let (tx, _rx) = new_justification_channel();
    let bridge = JustificationBridge::new(tx);
    let mut chain = ChainState::new();
    chain.import_block(BlockRecord { hash: 10, number: 0, parent: 0 }, true).unwrap();
    let n = note(10, 0);
    assert!(matches!(
        apply_notification(&mut chain, &bridge.metrics, &n, 10),
        NotificationOutcome::Finalized(_)
    ));
    assert_eq!(
        apply_notification(&mut chain, &bridge.metrics, &n, 20),
        NotificationOutcome::AlreadyFinal
    );
    assert_eq!(chain.finalized.len(), 1);
}

#[test]
fn genesis_session_authors_three_blocks_and_finalizes_out_of_order_arrivals() {
    // Genesis configuration: 900 blocks per session, 1000 ms per block.
    let timing = resolve_timing(Some(900), Some(1000)).unwrap();
    assert_eq!(timing.session_period().0, 900);
    let budget = timing.millisecs_per_block();

    // Author one block in each of the slots 0, 1, 2.
    let mut chain = ChainState::new();
    let (tx, mut rx) = new_justification_channel();
    let mut bridge = JustificationBridge::new(tx);
    let hashes = [100u64, 101, 102];
    for slot in 0u64..3 {
        let d = aleph_node::slots::inherent_data(slot * 1000, budget).unwrap();
        assert_eq!(d.slot, slot);
        let block = BlockRecord {
            hash: hashes[slot as usize],
            number: slot,
            parent: if slot == 0 { 0 } else { hashes[slot as usize - 1] },
        };
        bridge.import_block(&mut chain, block, true).unwrap();
    }

    // Justifications arrive in the order 1, 0, 2.
    for &i in &[1usize, 0, 2] {
        bridge
            .import_justification(hashes[i], i as u64, vec![i as u8], 3000 + i as u64)
            .unwrap();
    }

    // The finality task observes them in enqueue order 1, 0, 2 — not
    // re-sorted — and every finalization succeeds because all three
    // blocks are already imported.
    let mut seen = Vec::new();
    for _ in 0..3 {
        match pump_finality(&mut chain, &bridge.metrics, &mut rx, 5000) {
            PumpOutcome::Applied(h, NotificationOutcome::Finalized(_)) => seen.push(h),
            other => panic!("unexpected pump outcome: {:?}", other),
        }
    }
    assert_eq!(seen, vec![hashes[1], hashes[0], hashes[2]]);
    assert_eq!(pump_finality(&mut chain, &bridge.metrics, &mut rx, 5001), PumpOutcome::Idle);
    assert!(chain.is_finalized(hashes[0]));
    assert!(chain.is_finalized(hashes[1]));
    assert!(chain.is_finalized(hashes[2]));
}

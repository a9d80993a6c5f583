use std::str::FromStr;

use ruint::aliases::U256;
use state_bridge_relay::abi::{function_selector, latest_root_calldata, propagate_root_calldata};
use state_bridge_relay::config::{ProviderConfig, ServiceConfig, StateBridgeConfig, TreeConfig};
use state_bridge_relay::primitives::Uint256;
use state_bridge_relay::state_bridge::{
    BridgeAction, BridgeEvent, BridgePhase, BridgeTask, ListenerAction, ListenerEvent,
    ListenerPhase, RecvError, SpawnStep, StateBridge, StateBridgeError, StateBridgeService,
    BLOCK_CONFIRMATIONS, ROOT_CHANNEL_CAPACITY,
};

const SECOND: u128 = 1_000_000_000;

fn root(n: u64) -> Uint256 {
    Uint256 { limbs: [n, 0, 0, 0] }
}

fn bridge(period_secs: u128) -> StateBridge {
    StateBridge::new([1u8; 20], [2u8; 20], period_secs * SECOND).unwrap()
}

/// A bridge task that has read `bridged` as its starting root.
fn started(period_secs: u128, bridged: Uint256) -> BridgeTask {
    let (mut task, action) = bridge(period_secs).spawn();
    assert!(matches!(action, BridgeAction::ReadBridgedRoot));
    assert!(matches!(task.step(BridgeEvent::BridgedRoot(Ok(bridged))), BridgeAction::WaitForRoot));
    task
}

#[test]
fn selector_of_known_signature() {
    assert_eq!(function_selector("transfer(address,uint256)"), vec![0xa9, 0x05, 0x9c, 0xbb]);
}

#[test]
fn calldata_of_contract_calls() {
    assert_eq!(propagate_root_calldata(), vec![0x38, 0x0d, 0xb8, 0x29]);
    assert_eq!(latest_root_calldata(), vec![0xd7, 0xb0, 0xfe, 0xf1]);
}

#[test]
fn propagate_root_transaction() {
    let tx = StateBridge::propagate_root([3u8; 20], [4u8; 20], 31337);
    assert_eq!(tx.to, [3u8; 20]);
    assert_eq!(tx.from, [4u8; 20]);
    assert_eq!(tx.chain_id, 31337);
    assert_eq!(tx.data, vec![0x38, 0x0d, 0xb8, 0x29]);
    assert_eq!(tx.block_confirmations, 2);
    assert_eq!(BLOCK_CONFIRMATIONS, 2);
}

#[test]
fn new_and_new_from_parts_agree() {
    let a = StateBridge::new([1u8; 20], [2u8; 20], 5).unwrap();
    let b = StateBridge::new_from_parts([1u8; 20], [2u8; 20], 5).unwrap();
    assert_eq!(a.l1_state_bridge, b.l1_state_bridge);
    assert_eq!(a.l2_world_id, b.l2_world_id);
    assert_eq!(a.relaying_period, b.relaying_period);
}

#[test]
fn first_check_happens_at_once() {
    let mut task = started(5, root(1));
    assert!(task.last_propagation.is_none());
    assert!(matches!(task.step(BridgeEvent::SleepElapsed { now: 0 }), BridgeAction::ReadBridgedRoot));
    assert_eq!(task.phase, BridgePhase::Checking { at: 0 });
}

#[test]
fn same_root_is_not_propagated() {
    let mut task = started(5, root(1));
    task.step(BridgeEvent::SleepElapsed { now: 5 * SECOND });
    assert!(matches!(task.step(BridgeEvent::BridgedRoot(Ok(root(1)))), BridgeAction::WaitForRoot));
    assert!(task.last_propagation.is_none());
}

#[test]
fn propagation_is_rate_limited() {
    let mut task = started(5, root(1));
    assert!(matches!(
        task.step(BridgeEvent::RootReceived { root: Ok(root(2)), now: SECOND }),
        BridgeAction::ReadBridgedRoot
    ));
    assert!(matches!(task.step(BridgeEvent::BridgedRoot(Ok(root(1)))), BridgeAction::PropagateRoot));
    assert_eq!(task.phase, BridgePhase::Propagating { at: SECOND });
    assert!(matches!(
        task.step(BridgeEvent::Propagated { result: Ok(()), now: 2 * SECOND }),
        BridgeAction::WaitForRoot
    ));
    assert_eq!(task.last_propagation, Some(2 * SECOND));
    // A new root within the period waits.
    assert!(matches!(
        task.step(BridgeEvent::RootReceived { root: Ok(root(3)), now: 6 * SECOND }),
        BridgeAction::WaitForRoot
    ));
    assert_eq!(task.latest_root.limbs, root(3).limbs);
    assert!(matches!(
        task.step(BridgeEvent::SleepElapsed { now: 7 * SECOND - 1 }),
        BridgeAction::WaitForRoot
    ));
    // Exactly one period after the confirmation it checks again.
    assert!(matches!(
        task.step(BridgeEvent::SleepElapsed { now: 7 * SECOND }),
        BridgeAction::ReadBridgedRoot
    ));
    assert!(matches!(task.step(BridgeEvent::BridgedRoot(Ok(root(2)))), BridgeAction::PropagateRoot));
}

#[test]
fn received_root_is_checked_within_one_period() {
    let mut task = started(5, root(1));
    task.step(BridgeEvent::SleepElapsed { now: 0 });
    task.step(BridgeEvent::BridgedRoot(Ok(root(0))));
    task.step(BridgeEvent::Propagated { result: Ok(()), now: 10 * SECOND });
    assert_eq!(task.wait_timeout(), 5 * SECOND);
    // A root arriving within the period waits ...
    assert!(matches!(
        task.step(BridgeEvent::RootReceived { root: Ok(root(9)), now: 12 * SECOND }),
        BridgeAction::WaitForRoot
    ));
    // ... and the wait of one period that follows ends in a check.
    assert!(matches!(
        task.step(BridgeEvent::SleepElapsed { now: 12 * SECOND + task.wait_timeout() }),
        BridgeAction::ReadBridgedRoot
    ));
    assert!(matches!(task.step(BridgeEvent::BridgedRoot(Ok(root(1)))), BridgeAction::PropagateRoot));
}

#[test]
fn bridge_errors_end_the_task() {
    let (mut task, _) = bridge(5).spawn();
    assert!(matches!(
        task.step(BridgeEvent::BridgedRoot(Err("no roots seen".to_string()))),
        BridgeAction::Finish(Err(StateBridgeError::L2ContractError(_)))
    ));
    assert_eq!(task.phase, BridgePhase::Stopped);
    assert!(!task.accepts(&BridgeEvent::SleepElapsed { now: 0 }));

    let mut task = started(5, root(1));
    assert!(matches!(
        task.step(BridgeEvent::RootReceived { root: Err(RecvError::Lagged(4)), now: 0 }),
        BridgeAction::Finish(Err(StateBridgeError::RecvError(RecvError::Lagged(4))))
    ));

    let mut task = started(0, root(1));
    task.step(BridgeEvent::RootReceived { root: Ok(root(2)), now: 0 });
    task.step(BridgeEvent::BridgedRoot(Ok(root(1))));
    match task.step(BridgeEvent::Propagated { result: Err("reverted".to_string()), now: 1 }) {
        BridgeAction::Finish(Err(StateBridgeError::TransactionError(m))) => assert_eq!(m, "reverted"),
        _ => panic!("expected a transaction error"),
    }
}

#[test]
fn bridge_accepts_only_awaited_events() {
    let (task, _) = bridge(5).spawn();
    assert!(task.accepts(&BridgeEvent::BridgedRoot(Ok(root(0)))));
    assert!(!task.accepts(&BridgeEvent::SleepElapsed { now: 0 }));
    assert!(!task.accepts(&BridgeEvent::Propagated { result: Ok(()), now: 0 }));
    let task = started(5, root(0));
    assert!(task.accepts(&BridgeEvent::SleepElapsed { now: 0 }));
    assert!(task.accepts(&BridgeEvent::RootReceived { root: Err(RecvError::Closed), now: 0 }));
    assert!(!task.accepts(&BridgeEvent::BridgedRoot(Ok(root(0)))));
}

#[test]
fn listener_forwards_every_root() {
    let mut service = StateBridgeService::new([5u8; 20]).unwrap();
    service.add_state_bridge(bridge(5));
    let (mut listener, action) = service.listen_for_new_roots();
    assert!(matches!(action, ListenerAction::ReadLatestRoot));
    assert_eq!(listener.world_id_identity_manager, [5u8; 20]);
    assert!(matches!(listener.step(ListenerEvent::LatestRoot(Ok(root(10)))), ListenerAction::Broadcast(r) if r.limbs == root(10).limbs));
    assert!(matches!(listener.step(ListenerEvent::Sent(Ok(1))), ListenerAction::Subscribe));
    assert!(matches!(listener.step(ListenerEvent::Subscribed(Ok(()))), ListenerAction::NextTreeChange));
    assert!(matches!(listener.step(ListenerEvent::TreeChanged(Some(Ok(root(11))))), ListenerAction::Broadcast(r) if r.limbs == root(11).limbs));
    assert!(matches!(listener.step(ListenerEvent::Sent(Ok(2))), ListenerAction::NextTreeChange));
    assert!(matches!(listener.step(ListenerEvent::TreeChanged(Some(Err("dropped".to_string())))), ListenerAction::Finish(Ok(()))));
    assert!(matches!(listener.phase, ListenerPhase::Stopped));
}

#[test]
fn listener_ends_when_stream_ends() {
    let service = StateBridgeService::new([5u8; 20]).unwrap();
    let (mut listener, _) = service.listen_for_new_roots();
    listener.step(ListenerEvent::LatestRoot(Ok(root(10))));
    listener.step(ListenerEvent::Sent(Ok(1)));
    listener.step(ListenerEvent::Subscribed(Ok(())));
    assert!(matches!(listener.step(ListenerEvent::TreeChanged(None)), ListenerAction::Finish(Ok(()))));
}

#[test]
fn listener_errors() {
    let service = StateBridgeService::new([5u8; 20]).unwrap();
    let (mut listener, _) = service.listen_for_new_roots();
    assert!(matches!(
        listener.step(ListenerEvent::LatestRoot(Err("rpc down".to_string()))),
        ListenerAction::Finish(Err(StateBridgeError::L1ContractError(_)))
    ));
    let (mut listener, _) = service.listen_for_new_roots();
    listener.step(ListenerEvent::LatestRoot(Ok(root(10))));
    match listener.step(ListenerEvent::Sent(Err(()))) {
        ListenerAction::Finish(Err(StateBridgeError::SendError(r))) => assert_eq!(r.limbs, root(10).limbs),
        _ => panic!("expected a send error"),
    }
    let (mut listener, _) = service.listen_for_new_roots();
    listener.step(ListenerEvent::LatestRoot(Ok(root(10))));
    listener.step(ListenerEvent::Sent(Ok(1)));
    assert!(matches!(
        listener.step(ListenerEvent::Subscribed(Err("no filter".to_string()))),
        ListenerAction::Finish(Err(StateBridgeError::L1ContractError(_)))
    ));
}

#[test]
fn spawn_without_bridges_is_refused() {
    let mut service = StateBridgeService::new([5u8; 20]).unwrap();
    assert!(matches!(service.spawn(), Err(StateBridgeError::BridgesNotInitialized)));
}

#[test]
fn spawn_starts_bridges_then_listener() {
    let mut service = StateBridgeService::new([5u8; 20]).unwrap();
    service.add_state_bridge(StateBridge::new([1u8; 20], [2u8; 20], 3).unwrap());
    service.add_state_bridge(StateBridge::new([6u8; 20], [7u8; 20], 4).unwrap());
    let plan = service.spawn().unwrap();
    assert_eq!(plan.channel_capacity, ROOT_CHANNEL_CAPACITY);
    assert_eq!(ROOT_CHANNEL_CAPACITY, 60);
    assert_eq!(plan.steps.len(), 3);
    match &plan.steps[0] {
        SpawnStep::Bridge(task, action) => {
            assert_eq!(task.l1_state_bridge, [1u8; 20]);
            assert_eq!(task.phase, BridgePhase::Starting);
            assert!(matches!(action, BridgeAction::ReadBridgedRoot));
        }
        _ => panic!("bridges start first"),
    }
    match &plan.steps[1] {
        SpawnStep::Bridge(task, _) => {
            assert_eq!(task.l2_world_id, [7u8; 20]);
            assert_eq!(task.relaying_period, 4);
        }
        _ => panic!("bridges start first"),
    }
    match &plan.steps[2] {
        SpawnStep::RootListener(listener, action) => {
            assert!(matches!(listener.phase, ListenerPhase::Starting));
            assert!(matches!(action, ListenerAction::ReadLatestRoot));
        }
        _ => panic!("the root listener starts last"),
    }
    assert_eq!(service.state_bridges.len(), 2);
}

#[test]
fn service_from_config() {
    let provider = || ProviderConfig::from_fields("http://localhost:8545", None).unwrap();
    let tree = TreeConfig::from_fields([9u8; 20], None, None, provider());
    let b1 = StateBridgeConfig::from_fields([1u8; 20], [2u8; 20], None, provider(), Some(5));
    let b2 = StateBridgeConfig::from_fields([3u8; 20], [4u8; 20], None, provider(), None);
    let config = ServiceConfig::from_fields(tree, Some(vec![b1, b2]), None, None);
    let service = StateBridgeService::from_config(&config);
    assert_eq!(service.world_id_identity_manager, [9u8; 20]);
    assert_eq!(service.state_bridges.len(), 2);
    assert_eq!(service.state_bridges[0].l1_state_bridge, [1u8; 20]);
    assert_eq!(service.state_bridges[0].relaying_period, 5 * SECOND);
    assert_eq!(service.state_bridges[1].l2_world_id, [4u8; 20]);
    assert_eq!(service.state_bridges[1].relaying_period, 0);
}

/// A root inserted into the identity manager reaches the bridged World ID:
/// the listener broadcasts it, the bridge finds the target chain behind and
/// propagates, after which the bridged root matches and nothing more is sent.
#[test]
fn test_relay_root() {
    let latest_root = U256::from_str("0x12312321321").expect("couldn't parse hexstring");
    let latest_root = Uint256 { limbs: latest_root.into_limbs() };
    let previous = root(1);

    let mut service = StateBridgeService::new([5u8; 20]).expect("couldn't create StateBridgeService");
    service.add_state_bridge(StateBridge::new([1u8; 20], [2u8; 20], 5 * SECOND).unwrap());
    let plan = service.spawn().expect("failed to spawn a state bridge service");
    let mut steps = plan.steps.into_iter();
    let mut task = match steps.next() {
        Some(SpawnStep::Bridge(task, _)) => task,
        _ => panic!("the bridge starts first"),
    };
    let mut listener = match steps.next() {
        Some(SpawnStep::RootListener(listener, _)) => listener,
        _ => panic!("the root listener starts last"),
    };

    // Both chains start at the same root.
    task.step(BridgeEvent::BridgedRoot(Ok(previous)));
    listener.step(ListenerEvent::LatestRoot(Ok(previous)));
    listener.step(ListenerEvent::Sent(Ok(1)));
    listener.step(ListenerEvent::Subscribed(Ok(())));

    // The new root is inserted on layer 1.
    let sent = match listener.step(ListenerEvent::TreeChanged(Some(Ok(latest_root)))) {
        ListenerAction::Broadcast(r) => r,
        _ => panic!("The root in the event stream did not match `latest_root`"),
    };
    assert!(matches!(
        task.step(BridgeEvent::RootReceived { root: Ok(sent), now: SECOND }),
        BridgeAction::ReadBridgedRoot
    ));
    assert!(matches!(task.step(BridgeEvent::BridgedRoot(Ok(previous))), BridgeAction::PropagateRoot));
    task.step(BridgeEvent::Propagated { result: Ok(()), now: 2 * SECOND });

    // The target chain now holds the root; the next check finds nothing to do.
    let bridged_world_id_root = latest_root;
    task.step(BridgeEvent::SleepElapsed { now: 7 * SECOND });
    assert!(matches!(task.step(BridgeEvent::BridgedRoot(Ok(bridged_world_id_root))), BridgeAction::WaitForRoot));
    assert_eq!(task.latest_root.limbs, bridged_world_id_root.limbs);
}

use vstd::prelude::*;

use crate::primitives::Uint256;
use crate::relay::tx_sitter::{
    TransactionError,
    BlockTxStatus, GetTxResponse, PollAction, PollEvent, PollPhase, SendAction, SendEvent, SendPhase,
    SendTransaction, SendTxResponse, TxHashPoll, TxSitterError, TX_STATUS_POLL_INTERVAL_SECS,
};
use crate::state_bridge::{
    PropagateRootTx, StateBridgeError, RecvError,
    BridgeAction, BridgeEvent, BridgePhase, BridgeTask,
    ListenerAction, ListenerEvent, ListenerPhase, RootListener, StateBridge,
};

verus! {

/// The relaying period `period` has passed at `now` since `last`, instants
/// being compared with a saturating difference; with no last propagation it
/// always has.
pub open spec fn period_passed(last: Option<u128>, now: u128, period: u128) -> bool {
    match last {
        None => true,
        Some(t) => (now >= t && now - t >= period) || (now < t && period == 0),
    }
}

/// The tx-sitter's answer reports the transaction as sent with hash `hash`:
/// pending, mined or finalized, and naming that hash.
pub open spec fn reports_hash(resp: GetTxResponse, hash: [u8; 32]) -> bool {
    &&& (resp.status == Some(BlockTxStatus::Pending) || resp.status == Some(BlockTxStatus::Mined)
        || resp.status == Some(BlockTxStatus::Finalized))
    &&& resp.tx_hash == Some(hash)
}

/// The bridge task after the events `events`, taken in order.
pub open spec fn bridge_run(task: BridgeTask, events: Seq<BridgeEvent>) -> BridgeTask
    decreases events.len(),
{
    if events.len() == 0 {
        task
    } else {
        bridge_run(task, events.drop_last()).next(events.last()).0
    }
}

/// Each of `events`, in order, is one that the bridge task waits for.
pub open spec fn bridge_run_accepted(task: BridgeTask, events: Seq<BridgeEvent>) -> bool
    decreases events.len(),
{
    events.len() == 0 || (bridge_run_accepted(task, events.drop_last()) && bridge_run(
        task,
        events.drop_last(),
    ).awaits(events.last()))
}

/// A freshly spawned bridge task satisfies the task's invariant.
pub proof fn lemma_spawned_bridge_is_well_formed(bridge: StateBridge)
    ensures
        bridge.initial_task().wf(),
{
}

/// Every step of a bridge task keeps the invariant: a root check, and the
/// propagation it leads to, only happen once the relaying period has passed
/// since the last confirmed propagation.
pub proof fn lemma_bridge_step_keeps_invariant(task: BridgeTask, event: BridgeEvent)
    requires
        task.wf(),
        task.awaits(event),
    ensures
        task.next(event).0.wf(),
{
}

/// Every state that a spawned bridge reaches satisfies the invariant.
pub proof fn lemma_reachable_bridge_states_are_well_formed(
    bridge: StateBridge,
    events: Seq<BridgeEvent>,
)
    requires
        bridge_run_accepted(bridge.initial_task(), events),
    ensures
        bridge_run(bridge.initial_task(), events).wf(),
    decreases events.len(),
{
    if events.len() > 0 {
        lemma_reachable_bridge_states_are_well_formed(bridge, events.drop_last());
        lemma_bridge_step_keeps_invariant(
            bridge_run(bridge.initial_task(), events.drop_last()),
            events.last(),
        );
    }
}

/// Relaying is rate limited: a bridge asks for `propagateRoot()` only when the
/// relaying period has passed, at the time of the check, since the last
/// confirmed propagation (or none happened yet).
pub proof fn lemma_propagation_waits_for_relaying_period(task: BridgeTask, event: BridgeEvent)
    requires
        task.wf(),
        task.awaits(event),
        task.next(event).1 is PropagateRoot,
    ensures
        task.next(event).0.phase matches BridgePhase::Propagating { at } && period_passed(
            task.last_propagation,
            at,
            task.relaying_period,
        ),
        task.next(event).0.last_propagation == task.last_propagation,
{
}

/// Only a stale target chain is relayed to: a bridge asks for `propagateRoot()`
/// exactly when its check reads a bridged root that differs from the latest
/// root it knows.
pub proof fn lemma_propagates_exactly_when_roots_differ(task: BridgeTask, event: BridgeEvent)
    requires
        task.awaits(event),
    ensures
        task.next(event).1 is PropagateRoot <==> (task.phase is Checking
            && (event matches BridgeEvent::BridgedRoot(Ok(bridged)) && task.latest_root.limbs@ != bridged.limbs@)),
{
}

/// A wait that ends (with a new root or with the sleep) leads to a check of the
/// bridged root exactly when the relaying period has passed.
pub proof fn lemma_check_exactly_when_period_elapsed(task: BridgeTask, event: BridgeEvent)
    requires
        task.awaits(event),
        event matches BridgeEvent::RootReceived { root: Ok(_), now: _ } || event is SleepElapsed,
    ensures
        ({
            let now = match event {
                BridgeEvent::RootReceived { root: _, now } => now,
                BridgeEvent::SleepElapsed { now } => now,
                _ => 0,
            };
            task.next(event).1 is ReadBridgedRoot <==> period_passed(
                task.last_propagation,
                now,
                task.relaying_period,
            )
        }),
{
}

/// The root a bridge compares is the newest one it got: a received root
/// replaces the latest root, and no other event but the first read changes it.
pub proof fn lemma_latest_root_is_newest_received(task: BridgeTask, event: BridgeEvent)
    requires
        task.awaits(event),
    ensures
        event matches BridgeEvent::RootReceived { root: Ok(root), now: _ } ==> task.next(
            event,
        ).0.latest_root == root,
        !(event is RootReceived) && !(task.phase is Starting) ==> task.next(event).0.latest_root
            == task.latest_root,
{
}

/// The time of the last propagation changes only when a propagation is
/// confirmed, and then becomes the time of that confirmation.
pub proof fn lemma_last_propagation_moves_only_on_confirmation(task: BridgeTask, event: BridgeEvent)
    requires
        task.awaits(event),
        !(task.phase is Starting),
    ensures
        task.next(event).0.last_propagation != task.last_propagation ==> (event matches BridgeEvent::Propagated { result: Ok(()), now } && task.next(event).0.last_propagation == Some(now)),
        event matches BridgeEvent::Propagated { result: Ok(()), now } ==> task.next(event).0.last_propagation == Some(now),
{
}

/// A waiting bridge whose last confirmed propagation is at or before `t`
/// checks the bridged root when a wait of one relaying period, begun at `t`,
/// ends without a new root.
pub proof fn lemma_wait_of_one_period_leads_to_check(task: BridgeTask, t: u128)
    requires
        task.phase is Waiting,
        task.last_propagation matches Some(c) ==> c <= t,
        t + task.relaying_period <= u128::MAX,
    ensures
        task.next(BridgeEvent::SleepElapsed { now: (t + task.relaying_period) as u128 }).1 is ReadBridgedRoot,
{
}

/// New roots reach the target chain: when a waiting bridge whose last
/// confirmed propagation is at or before `t` receives root `r` at `t`, and no
/// later root arrives, then either it checks at once, or its wait of one
/// relaying period ends in a check; and that check, reading the bridged root
/// `b`, asks for `propagateRoot()` exactly when `b` differs from `r`.
pub proof fn lemma_received_root_is_checked_within_one_period(
    task: BridgeTask,
    r: Uint256,
    t: u128,
    b: Uint256,
)
    requires
        task.phase is Waiting,
        task.last_propagation matches Some(c) ==> c <= t,
        t + task.relaying_period <= u128::MAX,
    ensures
        ({
            let (received, action) = task.next(BridgeEvent::RootReceived { root: Ok(r), now: t });
            let checking = if action is ReadBridgedRoot {
                received
            } else {
                received.next(BridgeEvent::SleepElapsed { now: (t + task.relaying_period) as u128 }).0
            };
            &&& action is ReadBridgedRoot || action is WaitForRoot
            &&& action is WaitForRoot ==> received.next(
                BridgeEvent::SleepElapsed { now: (t + task.relaying_period) as u128 },
            ).1 is ReadBridgedRoot
            &&& checking.phase is Checking
            &&& checking.latest_root == r
            &&& (checking.next(BridgeEvent::BridgedRoot(Ok(b))).1 is PropagateRoot <==> r.limbs@ != b.limbs@)
        }),
{
}

/// A failure ends a bridge for good: the task finishes, with an error for
/// every failure, and then waits for nothing.
pub proof fn lemma_bridge_finish_is_final(task: BridgeTask, event: BridgeEvent, later: BridgeEvent)
    requires
        task.awaits(event),
        task.next(event).1 is Finish,
    ensures
        task.next(event).0.phase is Stopped,
        !task.next(event).0.awaits(later),
        task.next(event).1 matches BridgeAction::Finish(Err(_)),
{
}

/// The time at which the last `propagateRoot()` transaction among `events` was
/// confirmed, if any was.
pub open spec fn last_confirmation(events: Seq<BridgeEvent>) -> Option<u128>
    decreases events.len(),
{
    if events.len() == 0 {
        None
    } else {
        match events.last() {
            BridgeEvent::Propagated { result: Ok(()), now } => Some(now),
            _ => last_confirmation(events.drop_last()),
        }
    }
}

/// The newest root from layer 1 among `events`: the last root received on the
/// channel, or, before any, the bridged root read at the start.
pub open spec fn newest_root(events: Seq<BridgeEvent>) -> Option<Uint256>
    decreases events.len(),
{
    if events.len() == 0 {
        None
    } else {
        match events.last() {
            BridgeEvent::RootReceived { root: Ok(root), now: _ } => Some(root),
            BridgeEvent::BridgedRoot(Ok(root)) => if events.len() == 1 {
                Some(root)
            } else {
                newest_root(events.drop_last())
            },
            _ => newest_root(events.drop_last()),
        }
    }
}

/// Along any run of a spawned bridge, the task remembers exactly the time of
/// the last confirmed propagation and the newest root from layer 1, and it
/// leaves its starting phase with the first event.
pub proof fn lemma_bridge_run_tracks_history(bridge: StateBridge, events: Seq<BridgeEvent>)
    requires
        bridge_run_accepted(bridge.initial_task(), events),
    ensures
        bridge_run(bridge.initial_task(), events).last_propagation == last_confirmation(events),
        bridge_run(bridge.initial_task(), events).phase is Starting <==> events.len() == 0,
        events.len() > 0 && !(bridge_run(bridge.initial_task(), events).phase is Stopped)
            ==> newest_root(events) == Some(bridge_run(bridge.initial_task(), events).latest_root),
    decreases events.len(),
{
    if events.len() > 0 {
        let prev = events.drop_last();
        lemma_bridge_run_tracks_history(bridge, prev);
        if prev.len() > 0 && !(bridge_run(bridge.initial_task(), prev).phase is Stopped) {
            assert(newest_root(prev) == Some(bridge_run(bridge.initial_task(), prev).latest_root));
        }
    }
}

/// The relaying period is the minimum time between `propagateRoot()`
/// transactions: along any run of a spawned bridge, a propagation is asked for
/// only at a check made at least one relaying period after the last confirmed
/// propagation in that run, and only for the newest root from layer 1 when it
/// differs from the root that the check read on the target chain.
pub proof fn lemma_runs_are_rate_limited(
    bridge: StateBridge,
    events: Seq<BridgeEvent>,
    event: BridgeEvent,
)
    requires
        bridge_run_accepted(bridge.initial_task(), events),
        bridge_run(bridge.initial_task(), events).awaits(event),
        bridge_run(bridge.initial_task(), events).next(event).1 is PropagateRoot,
    ensures
        bridge_run(bridge.initial_task(), events).next(event).0.phase matches BridgePhase::Propagating { at } && period_passed(
            last_confirmation(events),
            at,
            bridge.relaying_period,
        ),
        event matches BridgeEvent::BridgedRoot(Ok(bridged)) && newest_root(events) matches Some(newest) && newest.limbs@ != bridged.limbs@,
{
    let task = bridge_run(bridge.initial_task(), events);
    lemma_reachable_bridge_states_are_well_formed(bridge, events);
    lemma_bridge_run_tracks_history(bridge, events);
    lemma_propagation_waits_for_relaying_period(task, event);
    lemma_propagates_exactly_when_roots_differ(task, event);
    assert(task.relaying_period == bridge.relaying_period) by {
        lemma_bridge_run_keeps_settings(bridge, events);
    }
}

/// A bridge's task keeps the addresses and the relaying period it was spawned
/// with.
pub proof fn lemma_bridge_run_keeps_settings(bridge: StateBridge, events: Seq<BridgeEvent>)
    ensures
        bridge_run(bridge.initial_task(), events).relaying_period == bridge.relaying_period,
        bridge_run(bridge.initial_task(), events).l1_state_bridge == bridge.l1_state_bridge,
        bridge_run(bridge.initial_task(), events).l2_world_id == bridge.l2_world_id,
    decreases events.len(),
{
    if events.len() > 0 {
        lemma_bridge_run_keeps_settings(bridge, events.drop_last());
    }
}

/// The root listener after the events `events`, taken in order.
pub open spec fn listener_run(listener: RootListener, events: Seq<ListenerEvent>) -> RootListener
    decreases events.len(),
{
    if events.len() == 0 {
        listener
    } else {
        listener_run(listener, events.drop_last()).next(events.last()).0
    }
}

/// Each of `events`, in order, is one that the listener waits for.
pub open spec fn listener_run_accepted(listener: RootListener, events: Seq<ListenerEvent>) -> bool
    decreases events.len(),
{
    events.len() == 0 || (listener_run_accepted(listener, events.drop_last()) && listener_run(
        listener,
        events.drop_last(),
    ).awaits(events.last()))
}

/// The roots that the listener asks to broadcast over the events `events`.
pub open spec fn broadcasts(listener: RootListener, events: Seq<ListenerEvent>) -> Seq<Uint256>
    decreases events.len(),
{
    if events.len() == 0 {
        Seq::empty()
    } else {
        let before = broadcasts(listener, events.drop_last());
        match listener_run(listener, events.drop_last()).next(events.last()).1 {
            ListenerAction::Broadcast(root) => before.push(root),
            _ => before,
        }
    }
}

/// The roots that layer 1 reports in `events`: the current root read at the
/// start, then the post-root of each `TreeChanged` event.
pub open spec fn reported_roots(events: Seq<ListenerEvent>) -> Seq<Uint256>
    decreases events.len(),
{
    if events.len() == 0 {
        Seq::empty()
    } else {
        let before = reported_roots(events.drop_last());
        match events.last() {
            ListenerEvent::LatestRoot(Ok(root)) => before.push(root),
            ListenerEvent::TreeChanged(Some(Ok(root))) => before.push(root),
            _ => before,
        }
    }
}

/// The listener forwards layer 1 faithfully: the roots it broadcasts are
/// exactly the roots that layer 1 reported, in the same order, none left out
/// and none added.
pub proof fn lemma_listener_broadcasts_every_reported_root(
    listener: RootListener,
    events: Seq<ListenerEvent>,
)
    requires
        listener_run_accepted(listener, events),
    ensures
        broadcasts(listener, events) == reported_roots(events),
    decreases events.len(),
{
    if events.len() > 0 {
        lemma_listener_broadcasts_every_reported_root(listener, events.drop_last());
    }
}

/// The listener ends normally exactly when the event stream ends or yields an
/// error; every other ending is an error, and after it the listener waits for
/// nothing.
pub proof fn lemma_listener_endings(
    listener: RootListener,
    event: ListenerEvent,
    later: ListenerEvent,
)
    requires
        listener.awaits(event),
    ensures
        listener.next(event).1 matches ListenerAction::Finish(Ok(())) <==> (event matches ListenerEvent::TreeChanged(item) && !(item matches Some(Ok(_)))),
        listener.next(event).1 is Finish ==> listener.next(event).0.phase is Stopped
            && !listener.next(event).0.awaits(later),
{
}

/// The wait for a transaction hash ends with a hash only when the tx-sitter
/// reports that transaction as pending, mined or finalized with that hash;
/// otherwise a successful answer leads to a sleep of the poll interval and
/// then to the same query again.
pub proof fn lemma_poll_ends_only_with_reported_hash(
    poll: TxHashPoll,
    event: PollEvent,
    later: PollEvent,
)
    requires
        poll.awaits(event),
    ensures
        poll.next(event).1 matches PollAction::Finish(Ok(hash)) ==> (event matches PollEvent::Body(resp) && reports_hash(resp, hash)),
        event matches PollEvent::Body(resp) ==> ((resp.status == Some(BlockTxStatus::Pending) || resp.status == Some(BlockTxStatus::Mined) || resp.status == Some(BlockTxStatus::Finalized)) && resp.tx_hash is Some ==> poll.next(event).1 == PollAction::Finish(Ok(resp.tx_hash->0))),
        event matches PollEvent::Body(resp) ==> (!((resp.status == Some(BlockTxStatus::Pending) || resp.status == Some(BlockTxStatus::Mined) || resp.status == Some(BlockTxStatus::Finalized)) && resp.tx_hash is Some) ==> poll.next(event).1 == PollAction::Sleep(3) && poll.next(event).0.phase == PollPhase::Sleeping),
        event is Slept ==> poll.next(event).1 is Get,
        poll.next(event).0.url == poll.url,
        poll.next(event).1 is Finish ==> poll.next(event).0.phase == PollPhase::Finished && !poll.next(event).0.awaits(later),
{
}

/// A transaction that the tx-sitter accepts is followed up by its id: a
/// success status for the post leads to reading the answer, and the answer's
/// transaction id is then polled under the same relay endpoint.
pub proof fn lemma_accepted_send_polls_returned_id(
    s0: SendTransaction,
    code: u16,
    s1: SendTransaction,
    a1: SendAction,
    resp: SendTxResponse,
    s2: SendTransaction,
    a2: SendAction,
)
    requires
        s0.phase is AwaitingStatus,
        200 <= code < 300,
        s0.step_to(SendEvent::Status(code), s1, a1),
        s1.step_to(SendEvent::Body(resp), s2, a2),
    ensures
        a1 is ReadBody,
        s1.awaits(SendEvent::Body(resp)),
        s2.relay_endpoint == s0.relay_endpoint,
        s2.phase matches SendPhase::Polling(poll) && poll.url@ == s0.relay_endpoint@ + resp.tx_id@
            && poll.phase == PollPhase::AwaitingStatus,
        a2 == SendAction::Poll(PollAction::Get),
{
}

/// An accepted post whose answer cannot be decoded ends the send with the
/// transport error, without any polling.
pub proof fn lemma_undecodable_answer_ends_send(
    s0: SendTransaction,
    code: u16,
    s1: SendTransaction,
    a1: SendAction,
    msg: String,
    s2: SendTransaction,
    a2: SendAction,
    later: SendEvent,
)
    requires
        s0.phase is AwaitingStatus,
        200 <= code < 300,
        s0.step_to(SendEvent::Status(code), s1, a1),
        s1.step_to(SendEvent::Failed(msg), s2, a2),
    ensures
        s1.awaits(SendEvent::Failed(msg)),
        a2 == SendAction::Finish(Err(TxSitterError::ReqwestError(msg))),
        s2.phase is Finished,
        !s2.awaits(later),
{
}

/// Once a send polls, each of its steps is a step of the poll, and it ends
/// exactly when the poll ends, with the poll's outcome.
pub proof fn lemma_polling_send_follows_poll(
    s: SendTransaction,
    e: PollEvent,
    next: SendTransaction,
    action: SendAction,
)
    requires
        s.phase matches SendPhase::Polling(poll) && poll.awaits(e),
        s.step_to(SendEvent::Poll(e), next, action),
    ensures
        s.phase matches SendPhase::Polling(poll) && (poll.next(e).1 matches PollAction::Finish(outcome)
            ==> action == SendAction::Finish(outcome) && next.phase is Finished) && (!(poll.next(
            e,
        ).1 is Finish) ==> action == SendAction::Poll(poll.next(e).1) && next.phase
            == SendPhase::Polling(poll.next(e).0)),
{
}

/// A check relays any difference: a checking bridge that reads a bridged root
/// whose limbs differ in any way from its latest root asks for
/// `propagateRoot()`, keeping the check's time; one that reads the very same
/// number goes back to waiting without propagating.
pub proof fn lemma_check_propagates_every_different_root(task: BridgeTask, bridged: Uint256)
    requires
        task.phase is Checking,
    ensures
        task.latest_root.limbs@ != bridged.limbs@ ==> task.next(BridgeEvent::BridgedRoot(Ok(bridged))).1 is PropagateRoot
            && task.next(BridgeEvent::BridgedRoot(Ok(bridged))).0.phase == (BridgePhase::Propagating { at: task.phase->Checking_at }),
        task.latest_root.limbs@ == bridged.limbs@ ==> task.next(BridgeEvent::BridgedRoot(Ok(bridged))).1 is WaitForRoot
            && task.next(BridgeEvent::BridgedRoot(Ok(bridged))).0.phase == BridgePhase::Waiting,
        task.next(BridgeEvent::BridgedRoot(Ok(bridged))).0.latest_root == task.latest_root,
        task.next(BridgeEvent::BridgedRoot(Ok(bridged))).0.last_propagation == task.last_propagation,
{
}

/// How each bridge event is answered, outside the check: the first read
/// starts the wait with that root and no propagation yet; every failure ends
/// the task with the matching error carrying what the caller reported; a
/// confirmed propagation records its time and waits again.
pub proof fn lemma_bridge_event_answers(task: BridgeTask, event: BridgeEvent)
    requires
        task.awaits(event),
    ensures
        task.phase is Starting ==> (event matches BridgeEvent::BridgedRoot(Ok(r)) ==> task.next(event).1 is WaitForRoot
            && task.next(event).0.phase == BridgePhase::Waiting && task.next(event).0.latest_root == r
            && task.next(event).0.last_propagation is None),
        event matches BridgeEvent::BridgedRoot(Err(msg)) ==> task.next(event).1 == BridgeAction::Finish(Err(StateBridgeError::L2ContractError(msg))),
        event matches BridgeEvent::RootReceived { root: Err(e), now: _ } ==> task.next(event).1 == BridgeAction::Finish(Err(StateBridgeError::RecvError(e))),
        event matches BridgeEvent::Propagated { result: Err(msg), now: _ } ==> task.next(event).1 == BridgeAction::Finish(Err(StateBridgeError::TransactionError(msg))),
        event matches BridgeEvent::Propagated { result: Ok(()), now } ==> task.next(event).1 is WaitForRoot
            && task.next(event).0.phase == BridgePhase::Waiting && task.next(event).0.last_propagation == Some(now)
            && task.next(event).0.latest_root == task.latest_root,
        task.next(event).0.relaying_period == task.relaying_period,
        task.next(event).0.l1_state_bridge == task.l1_state_bridge,
        task.next(event).0.l2_world_id == task.l2_world_id,
{
}

/// A wait that ends at `now` checks, at `now`, exactly when the relaying
/// period has passed since the last confirmed propagation; otherwise it waits
/// again with nothing changed but a received root.
pub proof fn lemma_wait_end_checks_at_its_time(task: BridgeTask, now: u128, root: Uint256)
    requires
        task.phase is Waiting,
    ensures
        ({
            let after_sleep = task.next(BridgeEvent::SleepElapsed { now });
            let after_root = task.next(BridgeEvent::RootReceived { root: Ok(root), now });
            &&& period_passed(task.last_propagation, now, task.relaying_period) ==> after_sleep.1 is ReadBridgedRoot
                && after_sleep.0.phase == (BridgePhase::Checking { at: now }) && after_root.1 is ReadBridgedRoot
                && after_root.0.phase == (BridgePhase::Checking { at: now })
            &&& !period_passed(task.last_propagation, now, task.relaying_period) ==> after_sleep.1 is WaitForRoot
                && after_sleep.0.phase == BridgePhase::Waiting && after_root.1 is WaitForRoot
                && after_root.0.phase == BridgePhase::Waiting
            &&& after_root.0.latest_root == root
            &&& after_sleep.0.latest_root == task.latest_root
            &&& after_root.0.last_propagation == task.last_propagation
            &&& after_sleep.0.last_propagation == task.last_propagation
        }),
{
}

/// The listener opens the event stream after its first broadcast, whatever
/// the number of receivers, and asks for stream items only once the stream is
/// open.
pub proof fn lemma_listener_subscribes_after_first_broadcast(
    listener: RootListener,
    receivers: usize,
    event: ListenerEvent,
)
    requires
        listener.awaits(event),
    ensures
        listener.phase is SendingInitial ==> listener.next(ListenerEvent::Sent(Ok(receivers))).1 is Subscribe
            && listener.next(ListenerEvent::Sent(Ok(receivers))).0.phase is Subscribing,
        listener.next(event).1 is NextTreeChange ==> (event matches ListenerEvent::Subscribed(Ok(())))
            || (listener.phase is SendingNew && event is Sent),
        listener.phase is SendingNew ==> listener.next(ListenerEvent::Sent(Ok(receivers))).1 is NextTreeChange,
        listener.phase is Streaming ==> listener.next(ListenerEvent::TreeChanged(None)).1 == ListenerAction::Finish(Ok(())),
        event matches ListenerEvent::LatestRoot(Err(msg)) ==> listener.next(event).1 == ListenerAction::Finish(Err(StateBridgeError::L1ContractError(msg))),
        event matches ListenerEvent::Subscribed(Err(msg)) ==> listener.next(event).1 == ListenerAction::Finish(Err(StateBridgeError::L1ContractError(msg))),
        listener.phase matches ListenerPhase::SendingInitial { root } ==> listener.next(ListenerEvent::Sent(Err(()))).1 == ListenerAction::Finish(Err(StateBridgeError::SendError(root))),
        listener.phase matches ListenerPhase::SendingNew { root } ==> listener.next(ListenerEvent::Sent(Err(()))).1 == ListenerAction::Finish(Err(StateBridgeError::SendError(root))),
        listener.next(event).0.world_id_identity_manager == listener.world_id_identity_manager,
{
}

/// Every listener run that reaches a stream item has opened the stream: no
/// accepted run from a fresh listener asks for `NextTreeChange` without an
/// earlier `Subscribed(Ok(()))`.
pub proof fn lemma_listener_streams_only_after_subscribing(
    listener: RootListener,
    events: Seq<ListenerEvent>,
)
    requires
        listener.phase is Starting,
        listener_run_accepted(listener, events),
    ensures
        (listener_run(listener, events).phase is Streaming || listener_run(listener, events).phase is SendingNew)
            ==> exists|i: int| 0 <= i < events.len() && #[trigger] events[i] matches ListenerEvent::Subscribed(Ok(_)),
    decreases events.len(),
{
    if events.len() > 0 {
        let prev = events.drop_last();
        lemma_listener_streams_only_after_subscribing(listener, prev);
        let ps = listener_run(listener, prev);
        let st = listener_run(listener, events);
        let last = events.last();
        assert(st == ps.next(last).0);
        assert(ps.awaits(last));
        if st.phase is Streaming || st.phase is SendingNew {
            if last is Subscribed {
                assert(ps.phase is Subscribing);
                assert(events[events.len() - 1] matches ListenerEvent::Subscribed(Ok(_)));
            } else {
                assert(ps.phase is Streaming || ps.phase is SendingNew);
                let i = choose|i: int| 0 <= i < prev.len() && #[trigger] prev[i] matches ListenerEvent::Subscribed(Ok(_));
                assert(events[i] == prev[i]);
            }
        }
    }
}

/// A status query answered outside the 2xx class ends the wait with that
/// status, for every such status; a 2xx answer leads to reading the body.
pub proof fn lemma_poll_fails_on_every_error_status(poll: TxHashPoll, code: u16)
    requires
        poll.phase == PollPhase::AwaitingStatus,
    ensures
        !(200 <= code < 300) ==> poll.next(PollEvent::Status(code)).1 == PollAction::Finish(
            Err(TxSitterError::TransactionError(TransactionError::GetTransactionStatusError(code))),
        ) && poll.next(PollEvent::Status(code)).0.phase == PollPhase::Finished,
        200 <= code < 300 ==> poll.next(PollEvent::Status(code)).1 is ReadBody
            && poll.next(PollEvent::Status(code)).0.phase == PollPhase::AwaitingBody,
{
}

/// A transport failure ends the wait with that message, in every phase that
/// awaits it.
pub proof fn lemma_poll_transport_failure(poll: TxHashPoll, msg: String)
    requires
        poll.awaits(PollEvent::Failed(msg)),
    ensures
        poll.next(PollEvent::Failed(msg)).1 == PollAction::Finish(Err(TxSitterError::ReqwestError(msg))),
        poll.next(PollEvent::Failed(msg)).0.phase == PollPhase::Finished,
{
}

/// How each event moves a send: a 2xx post leads to reading the answer, any
/// other status ends it with that status, a transport failure ends it with
/// the message in every phase that awaits one, and a send ends with a hash
/// only from polling, with the hash that a status answer reports.
pub proof fn lemma_send_event_answers(
    s: SendTransaction,
    event: SendEvent,
    next: SendTransaction,
    action: SendAction,
)
    requires
        s.awaits(event),
        s.step_to(event, next, action),
    ensures
        event matches SendEvent::Failed(msg) ==> action == SendAction::Finish(Err(TxSitterError::ReqwestError(msg)))
            && next.phase is Finished,
        event matches SendEvent::Status(code) ==> (200 <= code < 300 ==> action is ReadBody && next.phase is AwaitingBody),
        event matches SendEvent::Status(code) ==> (!(200 <= code < 300) ==> action == SendAction::Finish(
            Err(TxSitterError::TransactionError(TransactionError::SendTransactionError(code))),
        ) && next.phase is Finished),
        action matches SendAction::Finish(Ok(hash)) ==> (s.phase is Polling && (event matches SendEvent::Poll(PollEvent::Body(resp))
            && reports_hash(resp, hash))),
        next.relay_endpoint == s.relay_endpoint,
{
    if action matches SendAction::Finish(Ok(hash)) {
        if let SendPhase::Polling(poll) = s.phase {
            if let SendEvent::Poll(e) = event {
                lemma_poll_ends_only_with_reported_hash(poll, e, e);
            }
        }
    }
}

/// A `propagateRoot()` transaction is final once the head is
/// `block_confirmations - 1` blocks past the block it was mined in, and not
/// before: finality holds from that head on, for every later head, and never
/// at an earlier one.
pub proof fn lemma_finality_threshold(tx: PropagateRootTx, mined: u64, head: u64, later: u64)
    ensures
        head as int >= mined as int + tx.block_confirmations as int - 1 ==> tx.final_at(mined, head),
        head as int + 1 < mined as int + tx.block_confirmations as int ==> !tx.final_at(mined, head),
        tx.final_at(mined, head) && head <= later ==> tx.final_at(mined, later),
{
}

/// The fee caps are the smaller values: the fee cap is the gas price unless
/// a configured maximum is lower, and the tip never exceeds the fee cap.
pub proof fn lemma_fee_caps(gas_price: u128, priority_fee: u128, max_gas_price: Option<u128>, fees: (u128, u128))
    requires
        fees.0 == (match max_gas_price {
            Some(cap) => crate::state_bridge::min_fee(gas_price, cap),
            None => gas_price,
        }),
        fees.1 == crate::state_bridge::min_fee(priority_fee, fees.0),
    ensures
        fees.0 <= gas_price,
        max_gas_price matches Some(cap) ==> fees.0 <= cap && (fees.0 == gas_price || fees.0 == cap),
        max_gas_price is None ==> fees.0 == gas_price,
        fees.1 <= fees.0 && fees.1 <= priority_fee,
        fees.1 == priority_fee || fees.1 == fees.0,
{
}

} // verus!

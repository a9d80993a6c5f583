use vstd::prelude::*;

use crate::abi::{propagate_root_calldata, selector_of};
use crate::config::ServiceConfig;
use crate::primitives::{Address, Uint256};

verus! {

/// The number of block confirmations before a `propagateRoot()` transaction on
/// layer 1 is considered final.
pub const BLOCK_CONFIRMATIONS: usize = 2;

/// The capacity of the broadcast channel that carries new roots from the root
/// listener to the bridges.
pub const ROOT_CHANNEL_CAPACITY: usize = 60;

/// Why a bridge's receiver got no root.
#[derive(Clone, Copy, Debug, PartialEq, Eq, Structural)]
pub enum RecvError {
    /// Every sender is gone.
    Closed,
    /// The receiver fell behind and this many roots were skipped.
    Lagged(u64),
}

/// Errors of the state bridge service. Contract and transaction errors carry
/// the message of the client that raised them.
#[derive(Debug)]
pub enum StateBridgeError {
    /// A call to the identity manager on layer 1 failed.
    L1ContractError(String),
    /// A call to a bridged World ID on a target chain failed.
    L2ContractError(String),
    /// A bridge could not receive a root.
    RecvError(RecvError),
    /// This root could not be broadcast: no bridge was listening.
    SendError(Uint256),
    /// Filling, sending or confirming a `propagateRoot()` transaction failed.
    TransactionError(String),
    /// The service was spawned without any bridge.
    BridgesNotInitialized,
}

/// Relays the canonical root to one target chain: it watches the roots that
/// the identity manager publishes and calls `propagateRoot()` on its layer 1
/// state bridge when the target chain lags behind, at most once per relaying
/// period.
#[derive(Clone, Copy, Debug)]
pub struct StateBridge {
    /// The state bridge contract on layer 1.
    pub l1_state_bridge: Address,
    /// The bridged World ID contract on the target chain.
    pub l2_world_id: Address,
    /// Minimum time between `propagateRoot()` transactions, in nanoseconds.
    pub relaying_period: u128,
}

/// A `propagateRoot()` transaction to fill, simulate, sign and send on layer 1.
pub struct PropagateRootTx {
    pub to: Address,
    pub from: Address,
    pub chain_id: u64,
    pub data: Vec<u8>,
    /// Confirmations to await after sending.
    pub block_confirmations: usize,
}

/// The smaller of two fees.
pub open spec fn min_fee(a: u128, b: u128) -> u128 {
    if a <= b {
        a
    } else {
        b
    }
}

impl PropagateRootTx {
    /// A transaction mined in block `mined_block` has its confirmations once
    /// the head is `block_confirmations - 1` blocks past it.
    pub open spec fn final_at(self, mined_block: u64, head_block: u64) -> bool {
        head_block + 1 >= mined_block + self.block_confirmations
    }

    /// Whether the transaction, mined in `mined_block`, is final with the
    /// chain's head at `head_block`.
    pub fn is_final(&self, mined_block: u64, head_block: u64) -> (res: bool)
        ensures
            res == self.final_at(mined_block, head_block),
            res == (head_block as int + 1 >= mined_block as int + self.block_confirmations as int),
    {
        (head_block as u128) + 1 >= (mined_block as u128) + (self.block_confirmations as u128)
    }

    /// The fee caps of the transaction: the network's gas price, held down to
    /// the configured maximum gas price if there is one, and the priority fee,
    /// held down to that cap.
    pub fn fees(gas_price: u128, priority_fee: u128, max_gas_price: Option<u128>) -> (res: (
        u128,
        u128,
    ))
        ensures
            res.0 == (match max_gas_price {
                Some(cap) => min_fee(gas_price, cap),
                None => gas_price,
            }),
            res.1 == min_fee(priority_fee, res.0),
            res.0 <= gas_price,
            max_gas_price matches Some(cap) ==> res.0 <= cap && (res.0 == gas_price || res.0 == cap),
            max_gas_price is None ==> res.0 == gas_price,
            res.1 <= res.0 && res.1 <= priority_fee,
            res.1 == priority_fee || res.1 == res.0,
    {
        let max_fee = match max_gas_price {
            Some(cap) => if cap < gas_price {
                cap
            } else {
                gas_price
            },
            None => gas_price,
        };
        let tip = if priority_fee <= max_fee {
            priority_fee
        } else {
            max_fee
        };
        (max_fee, tip)
    }
}

/// Two roots are the same number.
pub open spec fn same_root(a: Uint256, b: Uint256) -> bool {
    a.limbs@ == b.limbs@
}

/// The time from `then` to `now`, zero where `now` is earlier (the saturating
/// difference of two instants).
pub open spec fn elapsed_since(now: u128, then: u128) -> int {
    if now >= then {
        now - then
    } else {
        0
    }
}

/// The relaying period has passed at `now` since the last propagation, or no
/// propagation happened yet.
pub open spec fn relaying_period_elapsed(last: Option<u128>, now: u128, period: u128) -> bool {
    match last {
        None => true,
        Some(t) => elapsed_since(now, t) >= period,
    }
}

/// Where a bridge's task stands.
#[derive(Clone, Copy, Debug, PartialEq, Eq, Structural)]
pub enum BridgePhase {
    /// The bridged root is read once before the first wait.
    Starting,
    /// Waiting for a new root or for the relaying period to pass.
    Waiting,
    /// The bridged root is being read, for a check made at this time.
    Checking { at: u128 },
    /// `propagateRoot()` is being sent, for a check made at this time.
    Propagating { at: u128 },
    /// The task has ended.
    Stopped,
}

/// The running state of one bridge.
pub struct BridgeTask {
    pub l1_state_bridge: Address,
    pub l2_world_id: Address,
    pub relaying_period: u128,
    /// The newest root known from layer 1.
    pub latest_root: Uint256,
    /// When the last `propagateRoot()` transaction was confirmed, if any was.
    pub last_propagation: Option<u128>,
    pub phase: BridgePhase,
}

/// What the caller reports back to a bridge's task. Times are nanoseconds on
/// a monotonic clock.
pub enum BridgeEvent {
    /// The outcome of reading `latestRoot()` of the bridged World ID.
    BridgedRoot(Result<Uint256, String>),
    /// A root arrived on the channel, or the channel failed, at `now`.
    RootReceived { root: Result<Uint256, RecvError>, now: u128 },
    /// The relaying period passed without a new root; it is now `now`.
    SleepElapsed { now: u128 },
    /// The outcome of a `propagateRoot()` transaction, known at `now`.
    Propagated { result: Result<(), String>, now: u128 },
}

/// What the caller is to do next for a bridge.
pub enum BridgeAction {
    /// Read `latestRoot()` of the bridged World ID on the target chain.
    ReadBridgedRoot,
    /// Wait for a root on the channel, or for the relaying period to pass.
    WaitForRoot,
    /// Send `propagateRoot()` to the state bridge on layer 1.
    PropagateRoot,
    /// The task ends with this outcome.
    Finish(Result<(), StateBridgeError>),
}

impl StateBridge {
    /// Builds a bridge for the state bridge `l1_state_bridge` on layer 1 and
    /// the bridged World ID `l2_world_id` on the target chain.
    pub fn new(l1_state_bridge: Address, l2_world_id: Address, relaying_period: u128) -> (res:
        Result<StateBridge, StateBridgeError>)
        ensures
            res matches Ok(b) && b.l1_state_bridge == l1_state_bridge && b.l2_world_id
                == l2_world_id && b.relaying_period == relaying_period,
    {
        Ok(StateBridge { l1_state_bridge, l2_world_id, relaying_period })
    }

    /// Builds a bridge from the address of the bridged World ID, as `new` does.
    pub fn new_from_parts(
        l1_state_bridge: Address,
        l2_world_id: Address,
        relaying_period: u128,
    ) -> (res: Result<StateBridge, StateBridgeError>)
        ensures
            res matches Ok(b) && b.l1_state_bridge == l1_state_bridge && b.l2_world_id
                == l2_world_id && b.relaying_period == relaying_period,
    {
        Ok(StateBridge { l1_state_bridge, l2_world_id, relaying_period })
    }

    /// The task of this bridge before it has read anything.
    pub open spec fn initial_task(self) -> BridgeTask {
        BridgeTask {
            l1_state_bridge: self.l1_state_bridge,
            l2_world_id: self.l2_world_id,
            relaying_period: self.relaying_period,
            latest_root: Uint256 { limbs: [0u64, 0u64, 0u64, 0u64] },
            last_propagation: None,
            phase: BridgePhase::Starting,
        }
    }

    /// Starts the bridge's task: its first step reads the bridged root.
    pub fn spawn(&self) -> (res: (BridgeTask, BridgeAction))
        ensures
            res.0 == self.initial_task(),
            res.1 is ReadBridgedRoot,
    {
        (
            BridgeTask {
                l1_state_bridge: self.l1_state_bridge,
                l2_world_id: self.l2_world_id,
                relaying_period: self.relaying_period,
                latest_root: Uint256 { limbs: [0, 0, 0, 0] },
                last_propagation: None,
                phase: BridgePhase::Starting,
            },
            BridgeAction::ReadBridgedRoot,
        )
    }

    /// The `propagateRoot()` transaction from `wallet_address` on chain
    /// `chain_id` to the state bridge `l1_state_bridge`.
    pub fn propagate_root(l1_state_bridge: Address, wallet_address: Address, chain_id: u64) -> (res:
        PropagateRootTx)
        ensures
            res.to == l1_state_bridge,
            res.from == wallet_address,
            res.chain_id == chain_id,
            res.data@ == selector_of("propagateRoot()"@),
            res.block_confirmations == BLOCK_CONFIRMATIONS,
    {
        PropagateRootTx {
            to: l1_state_bridge,
            from: wallet_address,
            chain_id,
            data: propagate_root_calldata(),
            block_confirmations: BLOCK_CONFIRMATIONS,
        }
    }
}

impl BridgeTask {
    /// The task's invariant: a check, and the propagation it leads to, only
    /// happen once the relaying period has passed since the last propagation.
    pub open spec fn wf(self) -> bool {
        match self.phase {
            BridgePhase::Checking { at } => relaying_period_elapsed(
                self.last_propagation,
                at,
                self.relaying_period,
            ),
            BridgePhase::Propagating { at } => relaying_period_elapsed(
                self.last_propagation,
                at,
                self.relaying_period,
            ),
            _ => true,
        }
    }

    /// Whether the task is in a phase that waits for `event`.
    pub open spec fn awaits(self, event: BridgeEvent) -> bool {
        match event {
            BridgeEvent::BridgedRoot(_) => self.phase is Starting || self.phase is Checking,
            BridgeEvent::RootReceived { .. } => self.phase is Waiting,
            BridgeEvent::SleepElapsed { .. } => self.phase is Waiting,
            BridgeEvent::Propagated { .. } => self.phase is Propagating,
        }
    }

    /// After a wait ends at `now`: check the bridged root if the relaying
    /// period has passed, else wait again.
    pub open spec fn after_wait(self, now: u128) -> (BridgeTask, BridgeAction) {
        if relaying_period_elapsed(self.last_propagation, now, self.relaying_period) {
            (BridgeTask { phase: BridgePhase::Checking { at: now }, ..self }, BridgeAction::ReadBridgedRoot)
        } else {
            (BridgeTask { phase: BridgePhase::Waiting, ..self }, BridgeAction::WaitForRoot)
        }
    }

    /// The task stopped with `outcome`.
    pub open spec fn stopped(self, outcome: Result<(), StateBridgeError>) -> (BridgeTask, BridgeAction) {
        (BridgeTask { phase: BridgePhase::Stopped, ..self }, BridgeAction::Finish(outcome))
    }

    /// The next state and action after `event`.
    pub open spec fn next(self, event: BridgeEvent) -> (BridgeTask, BridgeAction) {
        match event {
            BridgeEvent::BridgedRoot(Ok(bridged)) => match self.phase {
                BridgePhase::Checking { at } => if same_root(self.latest_root, bridged) {
                    (BridgeTask { phase: BridgePhase::Waiting, ..self }, BridgeAction::WaitForRoot)
                } else {
                    (
                        BridgeTask { phase: BridgePhase::Propagating { at }, ..self },
                        BridgeAction::PropagateRoot,
                    )
                },
                _ => (
                    BridgeTask {
                        latest_root: bridged,
                        last_propagation: None,
                        phase: BridgePhase::Waiting,
                        ..self
                    },
                    BridgeAction::WaitForRoot,
                ),
            },
            BridgeEvent::BridgedRoot(Err(msg)) => self.stopped(
                Err(StateBridgeError::L2ContractError(msg)),
            ),
            BridgeEvent::RootReceived { root: Ok(root), now } => BridgeTask {
                latest_root: root,
                ..self
            }.after_wait(now),
            BridgeEvent::RootReceived { root: Err(e), now: _ } => self.stopped(
                Err(StateBridgeError::RecvError(e)),
            ),
            BridgeEvent::SleepElapsed { now } => self.after_wait(now),
            BridgeEvent::Propagated { result: Ok(()), now } => (
                BridgeTask {
                    last_propagation: Some(now),
                    phase: BridgePhase::Waiting,
                    ..self
                },
                BridgeAction::WaitForRoot,
            ),
            BridgeEvent::Propagated { result: Err(msg), now: _ } => self.stopped(
                Err(StateBridgeError::TransactionError(msg)),
            ),
        }
    }

    /// How long a wait lasts before it ends without a new root: one relaying
    /// period, in nanoseconds.
    pub fn wait_timeout(&self) -> (res: u128)
        ensures
            res == self.relaying_period,
    {
        self.relaying_period
    }

    /// Tests whether the task waits for `event`.
    pub fn accepts(&self, event: &BridgeEvent) -> (res: bool)
        ensures
            res == self.awaits(*event),
    {
        match event {
            BridgeEvent::BridgedRoot(_) => match self.phase {
                BridgePhase::Starting => true,
                BridgePhase::Checking { .. } => true,
                _ => false,
            },
            BridgeEvent::RootReceived { .. } => self.phase == BridgePhase::Waiting,
            BridgeEvent::SleepElapsed { .. } => self.phase == BridgePhase::Waiting,
            BridgeEvent::Propagated { .. } => match self.phase {
                BridgePhase::Propagating { .. } => true,
                _ => false,
            },
        }
    }

    /// Whether the relaying period has passed at `now`.
    fn period_elapsed(&self, now: u128) -> (res: bool)
        ensures
            res == relaying_period_elapsed(self.last_propagation, now, self.relaying_period),
    {
        match self.last_propagation {
            None => true,
            Some(t) => {
                let elapsed = if now >= t {
                    now - t
                } else {
                    0
                };
                elapsed >= self.relaying_period
            },
        }
    }

    /// Ends a wait at `now`.
    fn finish_wait(&mut self, now: u128) -> (action: BridgeAction)
        ensures
            (*final(self), action) == old(self).after_wait(now),
    {
        if self.period_elapsed(now) {
            self.phase = BridgePhase::Checking { at: now };
            BridgeAction::ReadBridgedRoot
        } else {
            self.phase = BridgePhase::Waiting;
            BridgeAction::WaitForRoot
        }
    }

    /// Advances the task by one event.
    pub fn step(&mut self, event: BridgeEvent) -> (action: BridgeAction)
        requires
            old(self).awaits(event),
        ensures
            (*final(self), action) == old(self).next(event),
    {
        match event {
            BridgeEvent::BridgedRoot(Ok(bridged)) => match self.phase {
                BridgePhase::Checking { at } => {
                    if self.latest_root.equals(&bridged) {
                        self.phase = BridgePhase::Waiting;
                        BridgeAction::WaitForRoot
                    } else {
                        self.phase = BridgePhase::Propagating { at };
                        BridgeAction::PropagateRoot
                    }
                },
                _ => {
                    self.latest_root = bridged;
                    self.last_propagation = None;
                    self.phase = BridgePhase::Waiting;
                    BridgeAction::WaitForRoot
                },
            },
            BridgeEvent::BridgedRoot(Err(msg)) => {
                self.phase = BridgePhase::Stopped;
                BridgeAction::Finish(Err(StateBridgeError::L2ContractError(msg)))
            },
            BridgeEvent::RootReceived { root: Ok(root), now } => {
                self.latest_root = root;
                self.finish_wait(now)
            },
            BridgeEvent::RootReceived { root: Err(e), now: _ } => {
                self.phase = BridgePhase::Stopped;
                BridgeAction::Finish(Err(StateBridgeError::RecvError(e)))
            },
            BridgeEvent::SleepElapsed { now } => self.finish_wait(now),
            BridgeEvent::Propagated { result: Ok(()), now } => {
                self.last_propagation = Some(now);
                self.phase = BridgePhase::Waiting;
                BridgeAction::WaitForRoot
            },
            BridgeEvent::Propagated { result: Err(msg), now: _ } => {
                self.phase = BridgePhase::Stopped;
                BridgeAction::Finish(Err(StateBridgeError::TransactionError(msg)))
            },
        }
    }
}

/// Where the root listener stands.
#[derive(Clone, Copy, Debug)]
pub enum ListenerPhase {
    /// The current root of the identity manager is being read.
    Starting,
    /// The current root is being broadcast.
    SendingInitial { root: Uint256 },
    /// The `TreeChanged` event stream is being opened.
    Subscribing,
    /// Waiting for the next `TreeChanged` event.
    Streaming,
    /// The post-root of a `TreeChanged` event is being broadcast.
    SendingNew { root: Uint256 },
    /// The listener has ended.
    Stopped,
}

/// The running state of the task that watches the identity manager on layer 1
/// and broadcasts each new root to the bridges.
pub struct RootListener {
    /// The `WorldIDIdentityManager` contract on layer 1.
    pub world_id_identity_manager: Address,
    pub phase: ListenerPhase,
}

/// What the caller reports back to the root listener.
pub enum ListenerEvent {
    /// The outcome of reading `latestRoot()` of the identity manager.
    LatestRoot(Result<Uint256, String>),
    /// The outcome of a broadcast: the number of receivers, or none listening.
    Sent(Result<usize, ()>),
    /// The outcome of opening the `TreeChanged` event stream.
    Subscribed(Result<(), String>),
    /// The next item of the stream: the post-root of an event, an error, or
    /// the end of the stream.
    TreeChanged(Option<Result<Uint256, String>>),
}

/// What the caller is to do next for the root listener.
pub enum ListenerAction {
    /// Read `latestRoot()` of the identity manager.
    ReadLatestRoot,
    /// Send this root on the broadcast channel.
    Broadcast(Uint256),
    /// Open the stream of `TreeChanged` events.
    Subscribe,
    /// Wait for the next item of the event stream.
    NextTreeChange,
    /// The listener ends with this outcome.
    Finish(Result<(), StateBridgeError>),
}

impl RootListener {
    /// Whether the listener is in a phase that waits for `event`.
    pub open spec fn awaits(self, event: ListenerEvent) -> bool {
        match event {
            ListenerEvent::LatestRoot(_) => self.phase is Starting,
            ListenerEvent::Sent(_) => self.phase is SendingInitial || self.phase is SendingNew,
            ListenerEvent::Subscribed(_) => self.phase is Subscribing,
            ListenerEvent::TreeChanged(_) => self.phase is Streaming,
        }
    }

    /// The listener with another phase.
    pub open spec fn in_phase(self, phase: ListenerPhase) -> RootListener {
        RootListener { phase, ..self }
    }

    /// The next state and action after `event`: every root read is broadcast,
    /// the stream is opened after the first broadcast, a failed broadcast or a
    /// failed contract call ends the listener with an error, and the end of
    /// the stream, or an error in it, ends the listener normally.
    pub open spec fn next(self, event: ListenerEvent) -> (RootListener, ListenerAction) {
        match event {
            ListenerEvent::LatestRoot(Ok(root)) => (
                self.in_phase(ListenerPhase::SendingInitial { root }),
                ListenerAction::Broadcast(root),
            ),
            ListenerEvent::LatestRoot(Err(msg)) => (
                self.in_phase(ListenerPhase::Stopped),
                ListenerAction::Finish(Err(StateBridgeError::L1ContractError(msg))),
            ),
            ListenerEvent::Sent(Ok(_)) => match self.phase {
                ListenerPhase::SendingInitial { .. } => (
                    self.in_phase(ListenerPhase::Subscribing),
                    ListenerAction::Subscribe,
                ),
                _ => (self.in_phase(ListenerPhase::Streaming), ListenerAction::NextTreeChange),
            },
            ListenerEvent::Sent(Err(())) => {
                let root = match self.phase {
                    ListenerPhase::SendingInitial { root } => root,
                    ListenerPhase::SendingNew { root } => root,
                    _ => Uint256 { limbs: [0u64, 0u64, 0u64, 0u64] },
                };
                (
                    self.in_phase(ListenerPhase::Stopped),
                    ListenerAction::Finish(Err(StateBridgeError::SendError(root))),
                )
            },
            ListenerEvent::Subscribed(Ok(())) => (
                self.in_phase(ListenerPhase::Streaming),
                ListenerAction::NextTreeChange,
            ),
            ListenerEvent::Subscribed(Err(msg)) => (
                self.in_phase(ListenerPhase::Stopped),
                ListenerAction::Finish(Err(StateBridgeError::L1ContractError(msg))),
            ),
            ListenerEvent::TreeChanged(Some(Ok(root))) => (
                self.in_phase(ListenerPhase::SendingNew { root }),
                ListenerAction::Broadcast(root),
            ),
            ListenerEvent::TreeChanged(_) => (
                self.in_phase(ListenerPhase::Stopped),
                ListenerAction::Finish(Ok(())),
            ),
        }
    }

    /// Tests whether the listener waits for `event`.
    pub fn accepts(&self, event: &ListenerEvent) -> (res: bool)
        ensures
            res == self.awaits(*event),
    {
        match event {
            ListenerEvent::LatestRoot(_) => match self.phase {
                ListenerPhase::Starting => true,
                _ => false,
            },
            ListenerEvent::Sent(_) => match self.phase {
                ListenerPhase::SendingInitial { .. } => true,
                ListenerPhase::SendingNew { .. } => true,
                _ => false,
            },
            ListenerEvent::Subscribed(_) => match self.phase {
                ListenerPhase::Subscribing => true,
                _ => false,
            },
            ListenerEvent::TreeChanged(_) => match self.phase {
                ListenerPhase::Streaming => true,
                _ => false,
            },
        }
    }

    /// Advances the listener by one event.
    pub fn step(&mut self, event: ListenerEvent) -> (action: ListenerAction)
        requires
            old(self).awaits(event),
        ensures
            (*final(self), action) == old(self).next(event),
    {
        match event {
            ListenerEvent::LatestRoot(Ok(root)) => {
                self.phase = ListenerPhase::SendingInitial { root };
                ListenerAction::Broadcast(root)
            },
            ListenerEvent::LatestRoot(Err(msg)) => {
                self.phase = ListenerPhase::Stopped;
                ListenerAction::Finish(Err(StateBridgeError::L1ContractError(msg)))
            },
            ListenerEvent::Sent(Ok(_)) => match self.phase {
                ListenerPhase::SendingInitial { .. } => {
                    self.phase = ListenerPhase::Subscribing;
                    ListenerAction::Subscribe
                },
                _ => {
                    self.phase = ListenerPhase::Streaming;
                    ListenerAction::NextTreeChange
                },
            },
            ListenerEvent::Sent(Err(())) => {
                let root = match self.phase {
                    ListenerPhase::SendingInitial { root } => root,
                    ListenerPhase::SendingNew { root } => root,
                    _ => Uint256 { limbs: [0, 0, 0, 0] },
                };
                self.phase = ListenerPhase::Stopped;
                ListenerAction::Finish(Err(StateBridgeError::SendError(root)))
            },
            ListenerEvent::Subscribed(Ok(())) => {
                self.phase = ListenerPhase::Streaming;
                ListenerAction::NextTreeChange
            },
            ListenerEvent::Subscribed(Err(msg)) => {
                self.phase = ListenerPhase::Stopped;
                ListenerAction::Finish(Err(StateBridgeError::L1ContractError(msg)))
            },
            ListenerEvent::TreeChanged(Some(Ok(root))) => {
                self.phase = ListenerPhase::SendingNew { root };
                ListenerAction::Broadcast(root)
            },
            ListenerEvent::TreeChanged(_) => {
                self.phase = ListenerPhase::Stopped;
                ListenerAction::Finish(Ok(()))
            },
        }
    }
}

/// Watches the canonical tree for new roots and propagates them to the target
/// chains through its bridges.
pub struct StateBridgeService {
    /// The `WorldIDIdentityManager` contract on layer 1.
    pub world_id_identity_manager: Address,
    /// One bridge per target chain.
    pub state_bridges: Vec<StateBridge>,
}

/// One task to start when the service is spawned.
pub enum SpawnStep {
    /// Subscribe a receiver to the root channel and start this bridge's task
    /// with its first action.
    Bridge(BridgeTask, BridgeAction),
    /// Start the root listener, which sends on the root channel.
    RootListener(RootListener, ListenerAction),
}

/// The tasks that spawning the service starts, in the order to start them:
/// one per bridge, then the root listener last, so that every bridge already
/// listens on the channel when the first root is sent.
pub struct SpawnPlan {
    pub channel_capacity: usize,
    pub steps: Vec<SpawnStep>,
}

impl StateBridgeService {
    /// A service for the identity manager at `world_tree_address`, without
    /// bridges yet.
    pub fn new(world_tree_address: Address) -> (res: Result<StateBridgeService, StateBridgeError>)
        ensures
            res matches Ok(s) && s.world_id_identity_manager == world_tree_address
                && s.state_bridges@.len() == 0,
    {
        Ok(StateBridgeService { world_id_identity_manager: world_tree_address, state_bridges: Vec::new() })
    }

    /// Adds a bridge to a target chain.
    pub fn add_state_bridge(&mut self, state_bridge: StateBridge)
        ensures
            final(self).world_id_identity_manager == old(self).world_id_identity_manager,
            final(self).state_bridges@ == old(self).state_bridges@.push(state_bridge),
    {
        self.state_bridges.push(state_bridge);
    }

    /// The root listener before it has read anything.
    pub open spec fn initial_listener(self) -> RootListener {
        RootListener {
            world_id_identity_manager: self.world_id_identity_manager,
            phase: ListenerPhase::Starting,
        }
    }

    /// Starts the root listener: its first step reads the current root.
    pub fn listen_for_new_roots(&self) -> (res: (RootListener, ListenerAction))
        ensures
            res.0 == self.initial_listener(),
            res.1 is ReadLatestRoot,
    {
        (
            RootListener {
                world_id_identity_manager: self.world_id_identity_manager,
                phase: ListenerPhase::Starting,
            },
            ListenerAction::ReadLatestRoot,
        )
    }

    /// Spawns the service: without any bridge it refuses; otherwise it starts
    /// every bridge, in the order they were added, and then the root listener.
    pub fn spawn(&mut self) -> (res: Result<SpawnPlan, StateBridgeError>)
        ensures
            *final(self) == *old(self),
            old(self).state_bridges@.len() == 0 <==> res matches Err(
                StateBridgeError::BridgesNotInitialized,
            ),
            old(self).state_bridges@.len() > 0 ==> (res matches Ok(plan) && {
                &&& plan.channel_capacity == ROOT_CHANNEL_CAPACITY
                &&& plan.steps@.len() == old(self).state_bridges@.len() + 1
                &&& forall|i: int|
                    0 <= i < old(self).state_bridges@.len() ==> (#[trigger] plan.steps@[i]
                        matches SpawnStep::Bridge(task, action) && task
                        == old(self).state_bridges@[i].initial_task() && action is ReadBridgedRoot)
                &&& plan.steps@[old(self).state_bridges@.len() as int] matches SpawnStep::RootListener(listener, action)
                    && listener == old(self).initial_listener() && action is ReadLatestRoot
            }),
    {
        if self.state_bridges.len() == 0 {
            return Err(StateBridgeError::BridgesNotInitialized);
        }
        let mut steps: Vec<SpawnStep> = Vec::new();
        let n = self.state_bridges.len();
        for i in 0..n
            invariant
                n == self.state_bridges@.len(),
                steps@.len() == i,
                forall|j: int|
                    0 <= j < i ==> (#[trigger] steps@[j] matches SpawnStep::Bridge(task, action)
                        && task == self.state_bridges@[j].initial_task() && action is ReadBridgedRoot),
        {
            let (task, action) = self.state_bridges[i].spawn();
            steps.push(SpawnStep::Bridge(task, action));
        }
        let (listener, action) = self.listen_for_new_roots();
        steps.push(SpawnStep::RootListener(listener, action));
        Ok(SpawnPlan { channel_capacity: ROOT_CHANNEL_CAPACITY, steps })
    }

    /// The service that a configuration describes: the canonical tree's
    /// identity manager, and one bridge per configured target chain, in the
    /// configured order, each relaying at most once per its period.
    pub fn from_config(config: &ServiceConfig) -> (res: StateBridgeService)
        ensures
            res.world_id_identity_manager == config.canonical_tree.address,
            res.state_bridges@.len() == config.state_bridge@.len(),
            forall|i: int|
                0 <= i < res.state_bridges@.len() ==> {
                    let b = #[trigger] res.state_bridges@[i];
                    let c = config.state_bridge@[i];
                    &&& b.l1_state_bridge == c.state_bridge
                    &&& b.l2_world_id == c.bridged_world_id
                    &&& b.relaying_period == c.relaying_period_seconds * 1_000_000_000
                },
    {
        let mut state_bridges: Vec<StateBridge> = Vec::new();
        let n = config.state_bridge.len();
        for i in 0..n
            invariant
                n == config.state_bridge@.len(),
                state_bridges@.len() == i,
                forall|j: int|
                    0 <= j < i ==> {
                        let b = #[trigger] state_bridges@[j];
                        let c = config.state_bridge@[j];
                        &&& b.l1_state_bridge == c.state_bridge
                        &&& b.l2_world_id == c.bridged_world_id
                        &&& b.relaying_period == c.relaying_period_seconds * 1_000_000_000
                    },
        {
            let c = &config.state_bridge[i];
            state_bridges.push(
                StateBridge {
                    l1_state_bridge: c.state_bridge,
                    l2_world_id: c.bridged_world_id,
                    relaying_period: c.relaying_period(),
                },
            );
        }
        StateBridgeService { world_id_identity_manager: config.canonical_tree.address, state_bridges }
    }
}

} // verus!

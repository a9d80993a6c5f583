use vstd::prelude::*;
use vstd::string::*;

use crate::endpoint::{is_success_status, parse_url, parsed_url, status_is_success};
use crate::primitives::{Address, TxHash, Uint256};

verus! {

/// Seconds between two status queries while a transaction waits for its hash.
pub const TX_STATUS_POLL_INTERVAL_SECS: u64 = 3;

/// The gas price percentile that the tx-sitter aims at.
#[derive(Clone, Copy, Debug, PartialEq, Eq, Structural)]
pub enum TransactionPriority {
    /// 5th percentile.
    Slowest,
    /// 25th percentile.
    Slow,
    /// 50th percentile.
    Regular,
    /// 75th percentile.
    Fast,
    /// 95th percentile.
    Fastest,
}

impl Default for TransactionPriority {
    fn default() -> (res: TransactionPriority)
        ensures
            res == TransactionPriority::Regular,
    {
        TransactionPriority::Regular
    }
}

/// Where a transaction stands in the tx-sitter.
#[derive(Clone, Copy, Debug, PartialEq, Eq, Structural)]
pub enum BlockTxStatus {
    Pending,
    Mined,
    Finalized,
    Unsent,
}

/// What the relay reads of a typed transaction: its recipient (`None` for a
/// contract creation), the value sent, the input data and the gas limit.
pub struct TransactionFields {
    pub to: Option<Address>,
    pub value: Uint256,
    pub input: Vec<u8>,
    pub gas_limit: u128,
}

/// The body of a `POST` to the tx-sitter's `/tx` endpoint.
pub struct SendTxRequest {
    pub to: Address,
    pub value: Uint256,
    pub data: Option<Vec<u8>>,
    pub gas_limit: Uint256,
    pub priority: TransactionPriority,
    pub tx_id: Option<String>,
}

/// The tx-sitter's answer to a sent transaction.
pub struct SendTxResponse {
    pub tx_id: String,
}

/// The tx-sitter's answer to a status query.
pub struct GetTxResponse {
    pub status: Option<BlockTxStatus>,
    pub tx_hash: Option<TxHash>,
}

/// Why a transaction could not be handed to, or followed in, the tx-sitter.
#[derive(Debug)]
pub enum TransactionError {
    ToAddressNotFound,
    DataNotFound,
    ValueNotFound,
    GasLimitNotFound,
    /// The tx-sitter answered a sent transaction with this HTTP status.
    SendTransactionError(u16),
    /// The tx-sitter answered a status query with this HTTP status.
    GetTransactionStatusError(u16),
}

/// Errors of the tx-sitter client. The transport errors carry the message of
/// the HTTP or RPC client that raised them.
#[derive(Debug)]
pub enum TxSitterError {
    TransactionError(TransactionError),
    UrlParseError(url::ParseError),
    RpcError(String),
    ReqwestError(String),
}

impl SendTxRequest {
    /// Builds the tx-sitter request for a transaction: it needs a recipient,
    /// sends the input as data, widens the gas limit, asks for the regular
    /// priority and leaves the id to the tx-sitter.
    pub fn try_from(tx: TransactionFields) -> (res: Result<SendTxRequest, TransactionError>)
        ensures
            tx.to is None ==> res matches Err(TransactionError::ToAddressNotFound),
            tx.to matches Some(to) ==> res matches Ok(req) && {
                &&& req.to == to
                &&& req.value == tx.value
                &&& req.data == Some(tx.input)
                &&& req.gas_limit.value() == tx.gas_limit as nat
                &&& req.priority == TransactionPriority::Regular
                &&& req.tx_id is None
            },
    {
        match tx.to {
            None => Err(TransactionError::ToAddressNotFound),
            Some(to) => Ok(
                SendTxRequest {
                    to,
                    value: tx.value,
                    data: Some(tx.input),
                    gas_limit: Uint256::from_u128(tx.gas_limit),
                    priority: TransactionPriority::Regular,
                    tx_id: None,
                },
            ),
        }
    }
}

/// The hash that a status answer reports as sent: there is one once the
/// transaction is pending, mined or finalized and the answer names its hash.
pub open spec fn reported_tx_hash(resp: GetTxResponse) -> Option<TxHash> {
    match resp.status {
        Some(BlockTxStatus::Pending) | Some(BlockTxStatus::Mined) | Some(
            BlockTxStatus::Finalized,
        ) => resp.tx_hash,
        _ => None,
    }
}

/// A client of the tx-sitter service: the endpoint that transactions are
/// posted to, and the node that receipts are read from.
pub struct TxSitterClient {
    /// The tx-sitter's `/tx` endpoint.
    pub relay_endpoint: String,
    /// The serialization of the parsed RPC endpoint.
    pub rpc_endpoint: String,
}

/// Where the wait for a transaction hash stands.
#[derive(Clone, Copy, Debug, PartialEq, Eq, Structural)]
pub enum PollPhase {
    /// A status query was sent; its HTTP status is awaited.
    AwaitingStatus,
    /// The query succeeded; its decoded body is awaited.
    AwaitingBody,
    /// Waiting out the interval before the next query.
    Sleeping,
    /// The wait has ended.
    Finished,
}

/// What the caller reports back while waiting for a transaction hash.
pub enum PollEvent {
    /// The HTTP status of the status query.
    Status(u16),
    /// The decoded body of a successful status query.
    Body(GetTxResponse),
    /// The query could not be sent, or its body not decoded.
    Failed(String),
    /// The poll interval has passed.
    Slept,
}

/// What the caller is to do next while waiting for a transaction hash.
pub enum PollAction {
    /// Send a `GET` to the poll URL.
    Get,
    /// Decode the body of the answer.
    ReadBody,
    /// Sleep this many seconds.
    Sleep(u64),
    /// The wait is over, with this outcome.
    Finish(Result<TxHash, TxSitterError>),
}

/// The loop that queries the tx-sitter until a transaction has a hash.
pub struct TxHashPoll {
    /// The URL that is queried: the relay endpoint followed by the id.
    pub url: String,
    pub phase: PollPhase,
}

impl TxHashPoll {
    /// Whether the poll is in a phase that waits for `event`.
    pub open spec fn awaits(self, event: PollEvent) -> bool {
        match event {
            PollEvent::Status(_) => self.phase == PollPhase::AwaitingStatus,
            PollEvent::Body(_) => self.phase == PollPhase::AwaitingBody,
            PollEvent::Failed(_) => self.phase == PollPhase::AwaitingStatus || self.phase
                == PollPhase::AwaitingBody,
            PollEvent::Slept => self.phase == PollPhase::Sleeping,
        }
    }

    /// The next state and action after `event`: a failed status ends the wait
    /// with that status, a failed transport ends it with the message, a body
    /// with a reported hash ends it with the hash, any other body leads to a
    /// sleep of the poll interval, after which the query is sent again.
    pub open spec fn next(self, event: PollEvent) -> (TxHashPoll, PollAction) {
        match event {
            PollEvent::Status(code) => if is_success_status(code) {
                (TxHashPoll { phase: PollPhase::AwaitingBody, ..self }, PollAction::ReadBody)
            } else {
                (
                    TxHashPoll { phase: PollPhase::Finished, ..self },
                    PollAction::Finish(
                        Err(
                            TxSitterError::TransactionError(
                                TransactionError::GetTransactionStatusError(code),
                            ),
                        ),
                    ),
                )
            },
            PollEvent::Body(resp) => match reported_tx_hash(resp) {
                Some(hash) => (
                    TxHashPoll { phase: PollPhase::Finished, ..self },
                    PollAction::Finish(Ok(hash)),
                ),
                None => (
                    TxHashPoll { phase: PollPhase::Sleeping, ..self },
                    PollAction::Sleep(TX_STATUS_POLL_INTERVAL_SECS),
                ),
            },
            PollEvent::Failed(msg) => (
                TxHashPoll { phase: PollPhase::Finished, ..self },
                PollAction::Finish(Err(TxSitterError::ReqwestError(msg))),
            ),
            PollEvent::Slept => (
                TxHashPoll { phase: PollPhase::AwaitingStatus, ..self },
                PollAction::Get,
            ),
        }
    }

    /// Tests whether the poll waits for `event`.
    pub fn accepts(&self, event: &PollEvent) -> (res: bool)
        ensures
            res == self.awaits(*event),
    {
        match event {
            PollEvent::Status(_) => self.phase == PollPhase::AwaitingStatus,
            PollEvent::Body(_) => self.phase == PollPhase::AwaitingBody,
            PollEvent::Failed(_) => self.phase == PollPhase::AwaitingStatus || self.phase
                == PollPhase::AwaitingBody,
            PollEvent::Slept => self.phase == PollPhase::Sleeping,
        }
    }

    /// Advances the poll by one event.
    pub fn step(&mut self, event: PollEvent) -> (action: PollAction)
        requires
            old(self).awaits(event),
        ensures
            (*final(self), action) == old(self).next(event),
    {
        match event {
            PollEvent::Status(code) => {
                if status_is_success(code) {
                    self.phase = PollPhase::AwaitingBody;
                    PollAction::ReadBody
                } else {
                    self.phase = PollPhase::Finished;
                    PollAction::Finish(
                        Err(
                            TxSitterError::TransactionError(
                                TransactionError::GetTransactionStatusError(code),
                            ),
                        ),
                    )
                }
            },
            PollEvent::Body(resp) => {
                let reported = match resp.status {
                    Some(BlockTxStatus::Pending) | Some(BlockTxStatus::Mined) | Some(
                        BlockTxStatus::Finalized,
                    ) => resp.tx_hash,
                    _ => None,
                };
                match reported {
                    Some(hash) => {
                        self.phase = PollPhase::Finished;
                        PollAction::Finish(Ok(hash))
                    },
                    None => {
                        self.phase = PollPhase::Sleeping;
                        PollAction::Sleep(TX_STATUS_POLL_INTERVAL_SECS)
                    },
                }
            },
            PollEvent::Failed(msg) => {
                self.phase = PollPhase::Finished;
                PollAction::Finish(Err(TxSitterError::ReqwestError(msg)))
            },
            PollEvent::Slept => {
                self.phase = PollPhase::AwaitingStatus;
                PollAction::Get
            },
        }
    }
}


/// Where sending a transaction through the tx-sitter stands.
pub enum SendPhase {
    /// The request was posted; the HTTP status of the answer is awaited.
    AwaitingStatus,
    /// The post succeeded; the decoded answer with the transaction id is
    /// awaited.
    AwaitingBody,
    /// Waiting for the hash of the accepted transaction.
    Polling(TxHashPoll),
    /// The send has ended.
    Finished,
}

/// What the caller reports back while sending a transaction.
pub enum SendEvent {
    /// The HTTP status of the post.
    Status(u16),
    /// The decoded answer of a successful post.
    Body(SendTxResponse),
    /// The post could not be sent, or its answer not decoded.
    Failed(String),
    /// An event of the wait for the transaction's hash.
    Poll(PollEvent),
}

/// What the caller is to do next while sending a transaction.
pub enum SendAction {
    /// Post this request to the relay endpoint.
    Post(SendTxRequest),
    /// Decode the answer of the post.
    ReadBody,
    /// Perform this step of the wait for the transaction's hash.
    Poll(PollAction),
    /// The send is over, with this outcome.
    Finish(Result<TxHash, TxSitterError>),
}

/// Sending one transaction through the tx-sitter, from the post to the hash.
pub struct SendTransaction {
    /// The tx-sitter's `/tx` endpoint, which the request is posted to and the
    /// transaction's status is queried under.
    pub relay_endpoint: String,
    pub phase: SendPhase,
}

impl SendTransaction {
    /// Whether the send is in a phase that waits for `event`.
    pub open spec fn awaits(self, event: SendEvent) -> bool {
        match event {
            SendEvent::Status(_) => self.phase is AwaitingStatus,
            SendEvent::Body(_) => self.phase is AwaitingBody,
            SendEvent::Failed(_) => self.phase is AwaitingStatus || self.phase is AwaitingBody,
            SendEvent::Poll(e) => self.phase matches SendPhase::Polling(poll) && poll.awaits(e),
        }
    }

    /// How one event moves the send from `self` to `next`, asking for
    /// `action`: a failed status ends it with that status, a failed transport
    /// or an undecodable answer ends it with the message, an accepted
    /// transaction is polled by its id under the same relay endpoint, and
    /// from then on each step is that of the poll, whose ending ends the send.
    pub open spec fn step_to(self, event: SendEvent, next: SendTransaction, action: SendAction) -> bool {
        &&& next.relay_endpoint == self.relay_endpoint
        &&& match event {
            SendEvent::Status(code) => if is_success_status(code) {
                next.phase is AwaitingBody && action is ReadBody
            } else {
                next.phase is Finished && action == SendAction::Finish(
                    Err(
                        TxSitterError::TransactionError(
                            TransactionError::SendTransactionError(code),
                        ),
                    ),
                )
            },
            SendEvent::Body(resp) => next.phase matches SendPhase::Polling(poll) && poll.url@
                == self.relay_endpoint@ + resp.tx_id@ && poll.phase == PollPhase::AwaitingStatus
                && action == SendAction::Poll(PollAction::Get),
            SendEvent::Failed(msg) => next.phase is Finished && action == SendAction::Finish(
                Err(TxSitterError::ReqwestError(msg)),
            ),
            SendEvent::Poll(e) => match self.phase {
                SendPhase::Polling(poll) => match poll.next(e).1 {
                    PollAction::Finish(outcome) => next.phase is Finished && action
                        == SendAction::Finish(outcome),
                    poll_action => next.phase == SendPhase::Polling(poll.next(e).0) && action
                        == SendAction::Poll(poll_action),
                },
                _ => false,
            },
        }
    }

    /// Tests whether the send waits for `event`.
    pub fn accepts(&self, event: &SendEvent) -> (res: bool)
        ensures
            res == self.awaits(*event),
    {
        match event {
            SendEvent::Status(_) => match self.phase {
                SendPhase::AwaitingStatus => true,
                _ => false,
            },
            SendEvent::Body(_) => match self.phase {
                SendPhase::AwaitingBody => true,
                _ => false,
            },
            SendEvent::Failed(_) => match self.phase {
                SendPhase::AwaitingStatus => true,
                SendPhase::AwaitingBody => true,
                _ => false,
            },
            SendEvent::Poll(e) => match &self.phase {
                SendPhase::Polling(poll) => poll.accepts(e),
                _ => false,
            },
        }
    }

    /// Advances the send by one event.
    pub fn step(&mut self, event: SendEvent) -> (action: SendAction)
        requires
            old(self).awaits(event),
        ensures
            old(self).step_to(event, *final(self), action),
    {
        match event {
            SendEvent::Status(code) => {
                if status_is_success(code) {
                    self.phase = SendPhase::AwaitingBody;
                    SendAction::ReadBody
                } else {
                    self.phase = SendPhase::Finished;
                    SendAction::Finish(
                        Err(
                            TxSitterError::TransactionError(
                                TransactionError::SendTransactionError(code),
                            ),
                        ),
                    )
                }
            },
            SendEvent::Body(resp) => {
                let url = self.relay_endpoint.clone().concat(resp.tx_id.as_str());
                self.phase = SendPhase::Polling(TxHashPoll { url, phase: PollPhase::AwaitingStatus });
                SendAction::Poll(PollAction::Get)
            },
            SendEvent::Failed(msg) => {
                self.phase = SendPhase::Finished;
                SendAction::Finish(Err(TxSitterError::ReqwestError(msg)))
            },
            SendEvent::Poll(e) => {
                let mut phase = SendPhase::Finished;
                std::mem::swap(&mut phase, &mut self.phase);
                match phase {
                    SendPhase::Polling(mut poll) => {
                        let poll_action = poll.step(e);
                        match poll_action {
                            PollAction::Finish(outcome) => SendAction::Finish(outcome),
                            other => {
                                self.phase = SendPhase::Polling(poll);
                                SendAction::Poll(other)
                            },
                        }
                    },
                    _ => {
                        proof {
                            assert(false);
                        }
                        SendAction::Finish(Ok([0u8; 32]))
                    },
                }
            },
        }
    }
}

impl TxSitterClient {
    /// Builds a client from the relay endpoint and the outcome of parsing the
    /// RPC endpoint: the transactions go to the relay endpoint's `/tx` path,
    /// and a refused RPC endpoint is reported as a URL parse error.
    pub fn with_parsed_rpc_endpoint(
        relay_endpoint: String,
        parsed_rpc_endpoint: Result<String, url::ParseError>,
    ) -> (res: Result<TxSitterClient, TxSitterError>)
        ensures
            parsed_rpc_endpoint is Err <==> res matches Err(TxSitterError::UrlParseError(_)),
            parsed_rpc_endpoint matches Err(e) ==> res == Err::<TxSitterClient, TxSitterError>(
                TxSitterError::UrlParseError(e),
            ),
            parsed_rpc_endpoint matches Ok(rpc) ==> res matches Ok(client) && client.relay_endpoint@
                == relay_endpoint@ + "/tx"@ && client.rpc_endpoint == rpc,
    {
        match parsed_rpc_endpoint {
            Ok(rpc_endpoint) => {
                let relay_endpoint = relay_endpoint.concat("/tx");
                Ok(TxSitterClient { relay_endpoint, rpc_endpoint })
            },
            Err(e) => Err(TxSitterError::UrlParseError(e)),
        }
    }

    /// Builds a client: parses the RPC endpoint and points the transactions at
    /// the relay endpoint's `/tx` path.
    pub fn new(relay_endpoint: String, rpc_endpoint: String) -> (res: Result<
        TxSitterClient,
        TxSitterError,
    >)
        ensures
            parsed_url(rpc_endpoint@) is None <==> res matches Err(
                TxSitterError::UrlParseError(_),
            ),
            parsed_url(rpc_endpoint@) matches Some(rpc) ==> res matches Ok(client)
                && client.relay_endpoint@ == relay_endpoint@ + "/tx"@ && client.rpc_endpoint@
                == rpc,
    {
        let parsed = parse_url(rpc_endpoint.as_str());
        Self::with_parsed_rpc_endpoint(relay_endpoint, parsed)
    }

    /// The body of a transaction to send through the tx-sitter, or why there
    /// is none.
    pub fn send_transaction_request(tx: TransactionFields) -> (res: Result<
        SendTxRequest,
        TxSitterError,
    >)
        ensures
            tx.to is None ==> res matches Err(
                TxSitterError::TransactionError(TransactionError::ToAddressNotFound),
            ),
            tx.to matches Some(to) ==> res matches Ok(req) && req.to == to && req.value
                == tx.value && req.data == Some(tx.input) && req.gas_limit.value()
                == tx.gas_limit as nat && req.priority == TransactionPriority::Regular
                && req.tx_id is None,
    {
        match SendTxRequest::try_from(tx) {
            Ok(req) => Ok(req),
            Err(e) => Err(TxSitterError::TransactionError(e)),
        }
    }

    /// Judges the HTTP status of a sent transaction: a success status lets the
    /// answer be read, any other ends the send with that status.
    pub fn check_send_status(status: u16) -> (res: Result<(), TxSitterError>)
        ensures
            is_success_status(status) ==> res is Ok,
            !is_success_status(status) ==> res == Err::<(), TxSitterError>(
                TxSitterError::TransactionError(TransactionError::SendTransactionError(status)),
            ),
    {
        if status_is_success(status) {
            Ok(())
        } else {
            Err(TxSitterError::TransactionError(TransactionError::SendTransactionError(status)))
        }
    }

    /// Starts sending a transaction through the tx-sitter: the request is
    /// posted to the relay endpoint, unless the transaction has no recipient,
    /// which ends the send at once.
    pub fn send_transaction(&self, tx: TransactionFields) -> (res: (SendTransaction, SendAction))
        ensures
            res.0.relay_endpoint == self.relay_endpoint,
            tx.to is None ==> res.0.phase is Finished && res.1 == SendAction::Finish(
                Err(TxSitterError::TransactionError(TransactionError::ToAddressNotFound)),
            ),
            tx.to matches Some(to) ==> res.0.phase is AwaitingStatus && (res.1 matches SendAction::Post(req)
                && req.to == to && req.value == tx.value && req.data == Some(tx.input)
                && req.gas_limit.value() == tx.gas_limit as nat && req.priority
                == TransactionPriority::Regular && req.tx_id is None),
    {
        let relay_endpoint = self.relay_endpoint.clone();
        match Self::send_transaction_request(tx) {
            Ok(req) => (
                SendTransaction { relay_endpoint, phase: SendPhase::AwaitingStatus },
                SendAction::Post(req),
            ),
            Err(e) => (
                SendTransaction { relay_endpoint, phase: SendPhase::Finished },
                SendAction::Finish(Err(e)),
            ),
        }
    }

    /// Starts waiting for the hash of the transaction with id `tx_id`: the
    /// first step queries the relay endpoint followed by the id.
    pub fn wait_for_tx_hash(&self, tx_id: &str) -> (res: (TxHashPoll, PollAction))
        ensures
            res.0.url@ == self.relay_endpoint@ + tx_id@,
            res.0.phase == PollPhase::AwaitingStatus,
            res.1 is Get,
    {
        let url = self.relay_endpoint.clone().concat(tx_id);
        (TxHashPoll { url, phase: PollPhase::AwaitingStatus }, PollAction::Get)
    }
}

} // verus!

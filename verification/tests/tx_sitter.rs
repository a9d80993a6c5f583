use state_bridge_relay::primitives::Uint256;
use state_bridge_relay::relay::tx_sitter::{
    BlockTxStatus, GetTxResponse, PollAction, PollEvent, PollPhase, SendTxRequest,
    TransactionError, TransactionFields, TransactionPriority, TxSitterClient, TxSitterError,
    TX_STATUS_POLL_INTERVAL_SECS,
};

fn client() -> TxSitterClient {
    TxSitterClient::new("http://relay:3000/1/api/key".to_string(), "http://localhost:8545".to_string())
        .unwrap()
}

#[test]
fn tx_sitter_client_points_at_tx_path() {
    let c = client();
    assert_eq!(c.relay_endpoint, "http://relay:3000/1/api/key/tx");
    assert_eq!(c.rpc_endpoint, "http://localhost:8545/");
}

#[test]
fn tx_sitter_client_refuses_bad_rpc_endpoint() {
    let c = TxSitterClient::new("http://relay".to_string(), "not a url".to_string());
    assert!(matches!(c, Err(TxSitterError::UrlParseError(_))));
}

#[test]
fn refused_rpc_endpoint_keeps_its_parse_error() {
    let c = TxSitterClient::with_parsed_rpc_endpoint(
        "http://relay".to_string(),
        Err(url::ParseError::EmptyHost),
    );
    assert!(matches!(c, Err(TxSitterError::UrlParseError(url::ParseError::EmptyHost))));
    let c = TxSitterClient::new("http://relay".to_string(), "not a url".to_string());
    assert!(matches!(c, Err(TxSitterError::UrlParseError(url::ParseError::RelativeUrlWithoutBase))));
}

#[test]
fn default_priority_is_regular() {
    assert_eq!(TransactionPriority::default(), TransactionPriority::Regular);
}

#[test]
fn send_tx_request_from_transaction() {
    let tx = TransactionFields {
        to: Some([0xab; 20]),
        value: Uint256 { limbs: [5, 6, 7, 8] },
        input: vec![0x38, 0x0d, 0xb8, 0x29],
        gas_limit: 21_000,
    };
    let req = SendTxRequest::try_from(tx).unwrap();
    assert_eq!(req.to, [0xab; 20]);
    assert_eq!(req.value.limbs, [5, 6, 7, 8]);
    assert_eq!(req.data, Some(vec![0x38, 0x0d, 0xb8, 0x29]));
    assert_eq!(req.gas_limit.limbs, [21_000, 0, 0, 0]);
    assert_eq!(req.priority, TransactionPriority::Regular);
    assert!(req.tx_id.is_none());
}

#[test]
fn send_tx_request_widens_large_gas_limit() {
    let tx = TransactionFields {
        to: Some([1u8; 20]),
        value: Uint256 { limbs: [0; 4] },
        input: vec![],
        gas_limit: (1u128 << 64) + 5,
    };
    let req = SendTxRequest::try_from(tx).unwrap();
    assert_eq!(req.gas_limit.limbs, [5, 1, 0, 0]);
}

#[test]
fn send_tx_request_needs_recipient() {
    let tx = TransactionFields {
        to: None,
        value: Uint256 { limbs: [0; 4] },
        input: vec![1, 2, 3],
        gas_limit: 1,
    };
    assert!(matches!(SendTxRequest::try_from(tx), Err(TransactionError::ToAddressNotFound)));
    let tx = TransactionFields {
        to: None,
        value: Uint256 { limbs: [0; 4] },
        input: vec![],
        gas_limit: 1,
    };
    assert!(matches!(
        TxSitterClient::send_transaction_request(tx),
        Err(TxSitterError::TransactionError(TransactionError::ToAddressNotFound))
    ));
}

#[test]
fn send_status_is_judged_by_success_class() {
    assert!(TxSitterClient::check_send_status(200).is_ok());
    assert!(TxSitterClient::check_send_status(299).is_ok());
    assert!(matches!(
        TxSitterClient::check_send_status(199),
        Err(TxSitterError::TransactionError(TransactionError::SendTransactionError(199)))
    ));
    assert!(matches!(
        TxSitterClient::check_send_status(300),
        Err(TxSitterError::TransactionError(TransactionError::SendTransactionError(300)))
    ));
    assert!(matches!(
        TxSitterClient::check_send_status(500),
        Err(TxSitterError::TransactionError(TransactionError::SendTransactionError(500)))
    ));
}

#[test]
fn poll_url_is_endpoint_then_id() {
    let (poll, action) = client().wait_for_tx_hash("42");
    assert_eq!(poll.url, "http://relay:3000/1/api/key/tx42");
    assert_eq!(poll.phase, PollPhase::AwaitingStatus);
    assert!(matches!(action, PollAction::Get));
}

#[test]
fn poll_returns_hash_of_mined_transaction() {
    let (mut poll, _) = client().wait_for_tx_hash("42");
    assert!(matches!(poll.step(PollEvent::Status(200)), PollAction::ReadBody));
    let body = GetTxResponse { status: Some(BlockTxStatus::Mined), tx_hash: Some([7u8; 32]) };
    match poll.step(PollEvent::Body(body)) {
        PollAction::Finish(Ok(hash)) => assert_eq!(hash, [7u8; 32]),
        _ => panic!("expected the mined hash"),
    }
    assert_eq!(poll.phase, PollPhase::Finished);
    assert!(!poll.accepts(&PollEvent::Slept));
}

#[test]
fn poll_waits_while_unsent_then_queries_again() {
    let (mut poll, _) = client().wait_for_tx_hash("7");
    poll.step(PollEvent::Status(204));
    let body = GetTxResponse { status: Some(BlockTxStatus::Unsent), tx_hash: Some([1u8; 32]) };
    assert!(matches!(poll.step(PollEvent::Body(body)), PollAction::Sleep(3)));
    assert_eq!(TX_STATUS_POLL_INTERVAL_SECS, 3);
    assert!(matches!(poll.step(PollEvent::Slept), PollAction::Get));
    assert_eq!(poll.url, "http://relay:3000/1/api/key/tx7");
    poll.step(PollEvent::Status(200));
    let body = GetTxResponse { status: Some(BlockTxStatus::Pending), tx_hash: None };
    assert!(matches!(poll.step(PollEvent::Body(body)), PollAction::Sleep(3)));
    poll.step(PollEvent::Slept);
    poll.step(PollEvent::Status(200));
    let body = GetTxResponse { status: None, tx_hash: Some([1u8; 32]) };
    assert!(matches!(poll.step(PollEvent::Body(body)), PollAction::Sleep(3)));
    poll.step(PollEvent::Slept);
    poll.step(PollEvent::Status(200));
    let body = GetTxResponse { status: Some(BlockTxStatus::Finalized), tx_hash: Some([2u8; 32]) };
    assert!(matches!(poll.step(PollEvent::Body(body)), PollAction::Finish(Ok(h)) if h == [2u8; 32]));
}

#[test]
fn poll_fails_on_error_status() {
    let (mut poll, _) = client().wait_for_tx_hash("9");
    assert!(matches!(
        poll.step(PollEvent::Status(404)),
        PollAction::Finish(Err(TxSitterError::TransactionError(
            TransactionError::GetTransactionStatusError(404)
        )))
    ));
    assert!(!poll.accepts(&PollEvent::Status(200)));
}

#[test]
fn poll_fails_on_transport_error() {
    let (mut poll, _) = client().wait_for_tx_hash("9");
    poll.step(PollEvent::Status(200));
    match poll.step(PollEvent::Failed("bad json".to_string())) {
        PollAction::Finish(Err(TxSitterError::ReqwestError(m))) => assert_eq!(m, "bad json"),
        _ => panic!("expected a transport error"),
    }
}

use state_bridge_relay::relay::tx_sitter::{SendAction, SendEvent, SendPhase, SendTxResponse};

fn fields() -> TransactionFields {
    TransactionFields { to: Some([4u8; 20]), value: Uint256 { limbs: [0; 4] }, input: vec![1], gas_limit: 50_000 }
}

#[test]
fn send_transaction_polls_returned_id() {
    let c = client();
    let (mut send, action) = c.send_transaction(fields());
    match action {
        SendAction::Post(req) => assert_eq!(req.gas_limit.limbs, [50_000, 0, 0, 0]),
        _ => panic!("the request is posted first"),
    }
    assert!(matches!(send.step(SendEvent::Status(201)), SendAction::ReadBody));
    assert!(matches!(
        send.step(SendEvent::Body(SendTxResponse { tx_id: "abc".to_string() })),
        SendAction::Poll(PollAction::Get)
    ));
    match &send.phase {
        SendPhase::Polling(poll) => assert_eq!(poll.url, "http://relay:3000/1/api/key/txabc"),
        _ => panic!("the id is polled"),
    }
    assert!(matches!(send.step(SendEvent::Poll(PollEvent::Status(200))), SendAction::Poll(PollAction::ReadBody)));
    let body = GetTxResponse { status: Some(BlockTxStatus::Pending), tx_hash: Some([9u8; 32]) };
    assert!(matches!(send.step(SendEvent::Poll(PollEvent::Body(body))), SendAction::Finish(Ok(h)) if h == [9u8; 32]));
    assert!(matches!(send.phase, SendPhase::Finished));
}

#[test]
fn send_transaction_errors() {
    let c = client();
    let (mut send, _) = c.send_transaction(fields());
    assert!(matches!(
        send.step(SendEvent::Status(503)),
        SendAction::Finish(Err(TxSitterError::TransactionError(TransactionError::SendTransactionError(503))))
    ));
    let (mut send, _) = c.send_transaction(fields());
    send.step(SendEvent::Status(200));
    assert!(matches!(send.step(SendEvent::Failed("eof".to_string())), SendAction::Finish(Err(TxSitterError::ReqwestError(_)))));
    assert!(!send.accepts(&SendEvent::Poll(PollEvent::Slept)));
    let no_to = TransactionFields { to: None, ..fields() };
    let (send, action) = c.send_transaction(no_to);
    assert!(matches!(send.phase, SendPhase::Finished));
    assert!(matches!(action, SendAction::Finish(Err(TxSitterError::TransactionError(TransactionError::ToAddressNotFound)))));
}

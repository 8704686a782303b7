use axia_kit::chains::{Axia, AxiaTest, ChainInfo, FROM_AXIATEST_LATEST_CONFIRMED_NONCE_METHOD};
use axia_kit::messages_target::{
    nonce_from_response, unrewarded_relayers_state_from_response, AxlibMessagesTarget,
    UnrewardedRelayersState,
};
use axia_kit::relay::{ClientError, HeaderId};
use axia_kit::rialto_client::{
    flag_from_response, header_id_from_response, header_known_call_data,
    signed_submission_outcome, UnsignedSubmission,
};
use std::collections::VecDeque;

#[test]
fn chain_definitions() {
    assert_eq!(Axia::name(), "Axia");
    assert_eq!(Axia::average_block_interval_secs(), 6);
    assert_eq!(AxiaTest::name(), "AxiaTest");
    assert_eq!(AxiaTest::average_block_interval_secs(), 6);
    assert_eq!(
        FROM_AXIATEST_LATEST_CONFIRMED_NONCE_METHOD,
        "FromAxiaTestInboundLaneApi_latest_confirmed_nonce"
    );
}

#[test]
fn best_block_reply_is_number_then_hash() {
    let mut reply = vec![0x2a, 0x01, 0, 0, 0, 0, 0, 0];
    reply.extend((0..32u8).map(|b| b + 100));
    let id = header_id_from_response(&reply).unwrap();
    assert_eq!(id.0, 0x012a);
    let expected: Vec<u8> = (0..32u8).map(|b| b + 100).collect();
    assert_eq!(id.1.to_vec(), expected);
    // trailing bytes are not read
    reply.push(9);
    assert_eq!(header_id_from_response(&reply).unwrap().0, 0x012a);
}

#[test]
fn short_best_block_reply_is_a_parse_error() {
    let reply = vec![1u8; 39];
    assert!(matches!(header_id_from_response(&reply), Err(ClientError::ResponseParseFailed(_))));
    assert!(matches!(header_id_from_response(&[]), Err(ClientError::ResponseParseFailed(_))));
}

#[test]
fn flag_reply() {
    assert_eq!(flag_from_response(&[1]).unwrap(), true);
    assert_eq!(flag_from_response(&[0, 5]).unwrap(), false);
    assert!(matches!(flag_from_response(&[2]), Err(ClientError::ResponseParseFailed(_))));
    assert!(matches!(flag_from_response(&[]), Err(ClientError::ResponseParseFailed(_))));
}

#[test]
fn header_known_sends_the_hash() {
    let id = HeaderId(77u64, [5u8; 32]);
    assert_eq!(header_known_call_data(&id), vec![5u8; 32]);
    let mut hash = [0u8; 32];
    hash[0] = 1;
    hash[31] = 2;
    let data = header_known_call_data(&HeaderId(0, hash));
    assert_eq!(data.len(), 32);
    assert_eq!(data[0], 1);
    assert_eq!(data[31], 2);
}

#[test]
fn signed_submission_all_or_nothing() {
    let ok = signed_submission_outcome::<u64, String>(vec![1, 2, 3], Ok(()));
    assert_eq!(ok.submitted, vec![1, 2, 3]);
    assert!(ok.rejected.is_empty());
    assert!(ok.incomplete.is_empty());
    assert!(ok.fatal_error.is_none());

    let err = signed_submission_outcome::<u64, String>(vec![1, 2, 3], Err("refused".to_string()));
    assert!(err.submitted.is_empty());
    assert_eq!(err.rejected, vec![1, 2, 3]);
    assert!(err.incomplete.is_empty());
    assert_eq!(err.fatal_error, Some("refused".to_string()));
}

#[test]
fn unsigned_submission_all_accepted() {
    let mut s = UnsignedSubmission::<u64, String>::new(VecDeque::from(vec![10, 11, 12]));
    assert_eq!(s.pending_len(), 3);
    assert!(s.record(Ok(())));
    assert!(s.record(Ok(())));
    assert!(s.record(Ok(())));
    assert_eq!(s.pending_len(), 0);
    let report = s.into_submitted_headers();
    assert_eq!(report.submitted, vec![10, 11, 12]);
    assert!(report.rejected.is_empty());
    assert!(report.fatal_error.is_none());
}

#[test]
fn unsigned_submission_stops_at_first_error() {
    let mut s = UnsignedSubmission::<u64, String>::new(VecDeque::from(vec![10, 11, 12, 13]));
    assert!(s.record(Ok(())));
    assert!(!s.record(Err("bad header".to_string())));
    assert_eq!(s.pending_len(), 0);
    let report = s.into_submitted_headers();
    assert_eq!(report.submitted, vec![10]);
    assert_eq!(report.rejected, vec![11, 12, 13]);
    assert!(report.incomplete.is_empty());
    assert_eq!(report.fatal_error, Some("bad header".to_string()));
}

#[test]
fn unsigned_submission_of_nothing() {
    let s = UnsignedSubmission::<u64, String>::new(VecDeque::new());
    assert_eq!(s.pending_len(), 0);
    let report = s.into_submitted_headers();
    assert!(report.submitted.is_empty());
    assert!(report.rejected.is_empty());
    assert!(report.fatal_error.is_none());
}

#[test]
fn inbound_lane_queries_send_the_lane_id() {
    let target = AxlibMessagesTarget::<(), (), ()>::new((), (), *b"abcd", *b"axia", None);
    assert_eq!(target.inbound_lane_call_data(), b"abcd".to_vec());
    assert_eq!(target.lane_id(), *b"abcd");
    assert_eq!(target.instance(), *b"axia");
    assert!(target.source_to_target_headers_relay().is_none());
    let copy = target.clone();
    assert_eq!(copy.lane_id(), *b"abcd");
}

#[test]
fn nonce_reply() {
    let id = HeaderId(5u32, [1u8; 32]);
    let (back, nonce) = nonce_from_response(id, &[0x10, 0x27, 0, 0, 0, 0, 0, 0]).unwrap();
    assert_eq!(back, id);
    assert_eq!(nonce, 10_000);
    let (_, nonce) = nonce_from_response(id, &[0xff; 8]).unwrap();
    assert_eq!(nonce, u64::MAX);
    assert!(matches!(nonce_from_response(id, &[1, 2, 3]), Err(ClientError::ResponseParseFailed(_))));
}

#[test]
fn unrewarded_relayers_reply() {
    let mut reply = vec![3, 0, 0, 0, 0, 0, 0, 0];
    reply.extend([2, 0, 0, 0, 0, 0, 0, 0]);
    reply.extend([0, 1, 0, 0, 0, 0, 0, 0]);
    let (id, state) = unrewarded_relayers_state_from_response(7u8, &reply).unwrap();
    assert_eq!(id, 7);
    assert_eq!(
        state,
        UnrewardedRelayersState {
            unrewarded_relayer_entries: 3,
            messages_in_oldest_entry: 2,
            total_messages: 256
        }
    );
    reply.pop();
    assert!(matches!(
        unrewarded_relayers_state_from_response(7u8, &reply),
        Err(ClientError::ResponseParseFailed(_))
    ));
}

#[test]
fn receiving_proof_is_taken_at_the_header() {
    let target = AxlibMessagesTarget::<(), (), ()>::new((), (), *b"lane", *b"inst", None);
    let id = HeaderId(9u64, [4u8; 32]);
    let state = UnrewardedRelayersState {
        unrewarded_relayer_entries: 1,
        messages_in_oldest_entry: 1,
        total_messages: 1,
    };
    let (back, (relayers, proof)) = target.messages_receiving_proof(id, state, vec![vec![1, 2], vec![3]]);
    assert_eq!(back, id);
    assert_eq!(relayers, state);
    assert_eq!(proof.bridged_header_hash, [4u8; 32]);
    assert_eq!(proof.storage_proof, vec![vec![1, 2], vec![3]]);
    assert_eq!(proof.lane, *b"lane");
}

#[test]
fn client_can_be_replaced_in_place() {
    let mut target = AxlibMessagesTarget::<u32, (), ()>::new(1, (), *b"lane", *b"inst", Some(()));
    *target.client_mut() = 2;
    assert_eq!(*target.client(), 2);
    assert_eq!(target.lane_id(), *b"lane");
    assert!(target.source_to_target_headers_relay().is_some());
}

#[test]
fn clone_keeps_lane_instance_client_and_relay() {
    let target = AxlibMessagesTarget::<String, Vec<u8>, u8>::new("node".to_string(), vec![1, 2], *b"lane", *b"inst", Some(7));
    let copy = target.clone();
    assert_eq!(copy.lane_id(), *b"lane");
    assert_eq!(copy.instance(), *b"inst");
    assert_eq!(copy.client(), "node");
    assert_eq!(copy.lane(), &vec![1, 2]);
    assert_eq!(copy.source_to_target_headers_relay(), &Some(7));
    let without = AxlibMessagesTarget::<String, Vec<u8>, u8>::new(String::new(), vec![], *b"abcd", *b"efgh", None);
    assert!(without.clone().source_to_target_headers_relay().is_none());
}

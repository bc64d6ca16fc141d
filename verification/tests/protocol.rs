use celestia_da_client::blob::Commitment;
use celestia_da_client::blob_id::BlobId;
use celestia_da_client::client::{CelestiaClient, CelestiaConfig, StartupAction, BLOB_SIZE_LIMIT};
use celestia_da_client::dispatch::{DispatchAction, DispatchEvent, DispatchResponse, DispatchState};
use celestia_da_client::error::{
    classify, to_non_retriable_da_error, to_retriable_da_error, Cause, DAError,
};
use celestia_da_client::inclusion::{
    InclusionAction, InclusionData, InclusionEvent, InclusionResponse, InclusionState,
    InclusionStatus,
};
use celestia_da_client::namespace::Namespace;
use celestia_da_client::startup::{Service, StartupError, StartupEvent, StartupState};

const TEST_NAMESPACE: &str = "000000000000000000000000000000000000ca1de12a9905be97beaf";

fn config_with_namespace(namespace: &str) -> CelestiaConfig {
    CelestiaConfig {
        api_node_url: "http://localhost:9090".to_string(),
        integration_service_url: "http://localhost:50051".to_string(),
        namespace: namespace.to_string(),
        chain_id: "mocha-4".to_string(),
        timeout_ms: 20000,
    }
}

/// Drives a startup in which both channels open.
fn client_with_namespace(namespace: &str) -> CelestiaClient {
    let config = config_with_namespace(namespace);
    let mut step = CelestiaClient::new(&config, StartupState::Fresh, StartupEvent::Requested);
    loop {
        match step.1 {
            StartupAction::Connect { .. } => {
                step = CelestiaClient::new(&config, step.0, StartupEvent::Connected);
            }
            StartupAction::Ready(client) => return client,
            StartupAction::Abort(e) => panic!("{e:?}"),
        }
    }
}

fn test_client() -> CelestiaClient {
    client_with_namespace(TEST_NAMESPACE)
}

fn test_namespace() -> Namespace {
    let mut raw = [0u8; 29];
    raw[19..].copy_from_slice(&[0xca, 0x1d, 0xe1, 0x2a, 0x99, 0x05, 0xbe, 0x97, 0xbe, 0xaf]);
    Namespace::from_raw(&raw).unwrap()
}

/// Drives a dispatch in which the outside succeeds at every step.
fn dispatch(client: &CelestiaClient, payload: Vec<u8>, height: u64) -> Result<DispatchResponse, DAError> {
    let mut step = client.dispatch_blob(
        DispatchState::Idle,
        DispatchEvent::Requested { batch_number: 1, payload },
    );
    loop {
        let event = match step.1 {
            DispatchAction::Sign { .. } => DispatchEvent::Signed(Ok(())),
            DispatchAction::Submit => DispatchEvent::Submitted(Ok(height)),
            DispatchAction::Register { .. } => DispatchEvent::Registered(Ok(())),
            DispatchAction::Finish(answer) => return answer,
        };
        step = client.dispatch_blob(step.0, event);
    }
}

fn query(client: &CelestiaClient, blob_id: &str, answer: Result<InclusionResponse, String>) -> Result<Option<InclusionData>, DAError> {
    let (state, action) = client.get_inclusion_data(
        InclusionState::Idle,
        InclusionEvent::Requested { blob_id: blob_id.to_string() },
    );
    match action {
        InclusionAction::Finish(answer) => answer,
        InclusionAction::Query { .. } => {
            match client.get_inclusion_data(state, InclusionEvent::Answered(answer)).1 {
                InclusionAction::Finish(answer) => answer,
                InclusionAction::Query { .. } => panic!("asked twice"),
            }
        }
    }
}

#[test]
fn dispatch_of_a_thousand_zero_bytes() {
    let client = test_client();
    let response = dispatch(&client, vec![0; 1000], 31337).unwrap();
    let id = BlobId::decode(&response.blob_id).unwrap();
    assert_eq!(id.namespace, test_namespace());
    assert_eq!(id.height, 31337);
    let (expected, _) = Commitment::from_blob(&test_namespace(), vec![0; 1000]).unwrap();
    assert_eq!(id.commitment, expected);
    let theirs = celestia_types::Blob::new(
        celestia_types::nmt::Namespace::new_v0(&hex::decode(TEST_NAMESPACE).unwrap()).unwrap(),
        vec![0; 1000],
    )
    .unwrap();
    assert_eq!(id.commitment.0, theirs.commitment.0);
}

#[test]
fn dispatch_walks_through_its_steps() {
    let client = test_client();
    let payload = vec![5u8; 10];
    let (state, action) = client.dispatch_blob(
        DispatchState::Idle,
        DispatchEvent::Requested { batch_number: 7, payload: payload.clone() },
    );
    let (commitment, _) = Commitment::from_blob(&test_namespace(), payload.clone()).unwrap();
    assert_eq!(state, DispatchState::Signing { namespace: test_namespace(), commitment });
    assert_eq!(action, DispatchAction::Sign { namespace: test_namespace(), payload });

    let (state, action) = client.dispatch_blob(state, DispatchEvent::Signed(Ok(())));
    assert_eq!(state, DispatchState::Submitting { namespace: test_namespace(), commitment });
    assert_eq!(action, DispatchAction::Submit);

    let (state, action) = client.dispatch_blob(state, DispatchEvent::Submitted(Ok(99)));
    let blob_id = BlobId { commitment, namespace: test_namespace(), height: 99 };
    assert_eq!(state, DispatchState::Registering { blob_id });
    assert_eq!(action, DispatchAction::Register { blob_id });

    let (state, action) = client.dispatch_blob(state, DispatchEvent::Registered(Ok(())));
    assert_eq!(state, DispatchState::Done);
    assert_eq!(
        action,
        DispatchAction::Finish(Ok(DispatchResponse { blob_id: blob_id.encode() }))
    );
}

#[test]
fn batch_number_is_bookkeeping() {
    let client = test_client();
    let a = client.dispatch_blob(
        DispatchState::Idle,
        DispatchEvent::Requested { batch_number: 1, payload: vec![1, 2, 3] },
    );
    let b = client.dispatch_blob(
        DispatchState::Idle,
        DispatchEvent::Requested { batch_number: u32::MAX, payload: vec![1, 2, 3] },
    );
    assert_eq!(a, b);
}

#[test]
fn equal_payloads_share_a_commitment() {
    let client = test_client();
    let first = BlobId::decode(&dispatch(&client, vec![9; 700], 10).unwrap().blob_id).unwrap();
    let second = BlobId::decode(&dispatch(&client, vec![9; 700], 11).unwrap().blob_id).unwrap();
    let other = BlobId::decode(&dispatch(&client, vec![8; 700], 10).unwrap().blob_id).unwrap();
    assert_eq!(first.commitment, second.commitment);
    assert_eq!(first.namespace, second.namespace);
    assert_ne!(first.height, second.height);
    assert_ne!(first, second);
    assert_ne!(first.commitment, other.commitment);
}

#[test]
fn dispatch_does_not_enforce_the_size_limit() {
    let client = test_client();
    assert!(dispatch(&client, vec![1; BLOB_SIZE_LIMIT + 1], 5).is_ok());
}

#[test]
fn dispatch_then_query_is_not_ready() {
    let client = test_client();
    let response = dispatch(&client, vec![0; 1000], 4242).unwrap();
    let pending = InclusionResponse { status: InclusionStatus::Incomplete, proof: None };
    assert_eq!(query(&client, &response.blob_id, Ok(pending)), Ok(None));
}

#[test]
fn namespace_that_is_no_hex_fails_for_good() {
    let client = client_with_namespace("not hex");
    let (state, action) = client.dispatch_blob(
        DispatchState::Idle,
        DispatchEvent::Requested { batch_number: 1, payload: vec![1] },
    );
    assert_eq!(state, DispatchState::Done);
    assert_eq!(
        action,
        DispatchAction::Finish(Err(DAError {
            cause: Cause::NamespaceNotHex,
            detail: String::new(),
            is_retriable: false,
        }))
    );
}

#[test]
fn namespace_of_a_wrong_length_fails_for_good() {
    let client = client_with_namespace("0102030405060708090a0b");
    let answer = dispatch(&client, vec![1], 1);
    assert_eq!(
        answer,
        Err(DAError { cause: Cause::NamespaceInvalid, detail: String::new(), is_retriable: false })
    );
}

#[test]
fn signing_failure_is_final() {
    let client = test_client();
    let (state, _) = client.dispatch_blob(
        DispatchState::Idle,
        DispatchEvent::Requested { batch_number: 1, payload: vec![1] },
    );
    let (state, action) =
        client.dispatch_blob(state, DispatchEvent::Signed(Err("no such account".to_string())));
    assert_eq!(state, DispatchState::Done);
    assert_eq!(
        action,
        DispatchAction::Finish(Err(DAError {
            cause: Cause::SigningFailed,
            detail: "no such account".to_string(),
            is_retriable: false,
        }))
    );
}

#[test]
fn submission_failure_is_final() {
    let client = test_client();
    let (state, _) = client.dispatch_blob(
        DispatchState::Idle,
        DispatchEvent::Requested { batch_number: 1, payload: vec![1] },
    );
    let (state, _) = client.dispatch_blob(state, DispatchEvent::Signed(Ok(())));
    let (state, action) =
        client.dispatch_blob(state, DispatchEvent::Submitted(Err("connection reset".to_string())));
    assert_eq!(state, DispatchState::Done);
    assert_eq!(
        action,
        DispatchAction::Finish(Err(DAError {
            cause: Cause::SubmissionFailed,
            detail: "connection reset".to_string(),
            is_retriable: false,
        }))
    );
}

#[test]
fn registration_failure_is_retriable() {
    let client = test_client();
    let (state, _) = client.dispatch_blob(
        DispatchState::Idle,
        DispatchEvent::Requested { batch_number: 1, payload: vec![1] },
    );
    let (state, _) = client.dispatch_blob(state, DispatchEvent::Signed(Ok(())));
    let (state, _) = client.dispatch_blob(state, DispatchEvent::Submitted(Ok(3)));
    let (state, action) =
        client.dispatch_blob(state, DispatchEvent::Registered(Err("unavailable".to_string())));
    assert_eq!(state, DispatchState::Done);
    assert_eq!(
        action,
        DispatchAction::Finish(Err(DAError {
            cause: Cause::RegistrationFailed,
            detail: "unavailable".to_string(),
            is_retriable: true,
        }))
    );
}

#[test]
fn event_out_of_turn_ends_the_dispatch() {
    let client = test_client();
    let (state, action) = client.dispatch_blob(DispatchState::Idle, DispatchEvent::Submitted(Ok(1)));
    assert_eq!(state, DispatchState::Done);
    assert_eq!(
        action,
        DispatchAction::Finish(Err(DAError {
            cause: Cause::OutOfTurn,
            detail: String::new(),
            is_retriable: false,
        }))
    );
    let (_, action) = client.dispatch_blob(DispatchState::Done, DispatchEvent::Registered(Ok(())));
    assert!(matches!(action, DispatchAction::Finish(Err(DAError { cause: Cause::OutOfTurn, .. }))));
}

#[test]
fn invalid_hex_id_is_refused_for_good() {
    let client = test_client();
    let (state, action) = client.get_inclusion_data(
        InclusionState::Idle,
        InclusionEvent::Requested { blob_id: "zz".to_string() },
    );
    assert_eq!(state, InclusionState::Done);
    assert_eq!(
        action,
        InclusionAction::Finish(Err(DAError {
            cause: Cause::BlobIdMalformed,
            detail: String::new(),
            is_retriable: false,
        }))
    );
}

#[test]
fn hex_that_is_no_id_is_refused_for_good() {
    let client = test_client();
    let answer = query(&client, "00ff", Ok(InclusionResponse { status: InclusionStatus::Complete, proof: Some(vec![1]) }));
    assert_eq!(
        answer,
        Err(DAError { cause: Cause::BlobIdMalformed, detail: String::new(), is_retriable: false })
    );
}

#[test]
fn query_asks_about_the_decoded_id() {
    let client = test_client();
    let id = BlobId {
        commitment: Commitment([3; 32]),
        namespace: test_namespace(),
        height: 77,
    };
    let (state, action) = client.get_inclusion_data(
        InclusionState::Idle,
        InclusionEvent::Requested { blob_id: id.encode() },
    );
    assert_eq!(state, InclusionState::Querying);
    assert_eq!(action, InclusionAction::Query { blob_id: id });
}

#[test]
fn complete_without_proof_is_a_broken_invariant() {
    let client = test_client();
    let id = dispatch(&client, vec![0; 10], 1).unwrap().blob_id;
    let answer = query(
        &client,
        &id,
        Ok(InclusionResponse { status: InclusionStatus::Complete, proof: None }),
    );
    let e = answer.unwrap_err();
    assert_eq!(e.cause, Cause::ProofMissing);
    assert!(!e.is_retriable);
    assert_eq!(
        e.message(),
        "Complete status should be accompanied by a Proof, eq-service is broken"
    );
}

#[test]
fn complete_with_proof_hands_it_over() {
    let client = test_client();
    let id = dispatch(&client, vec![0; 10], 1).unwrap().blob_id;
    let proof = vec![0xde, 0xad, 0xbe, 0xef];
    let answer = query(
        &client,
        &id,
        Ok(InclusionResponse { status: InclusionStatus::Complete, proof: Some(proof.clone()) }),
    );
    assert_eq!(answer, Ok(Some(InclusionData { data: proof })));
}

#[test]
fn incomplete_is_not_an_error() {
    let client = test_client();
    let id = dispatch(&client, vec![0; 10], 1).unwrap().blob_id;
    let with_payload = InclusionResponse { status: InclusionStatus::Incomplete, proof: Some(vec![1]) };
    assert_eq!(query(&client, &id, Ok(with_payload)), Ok(None));
    let without = InclusionResponse { status: InclusionStatus::Incomplete, proof: None };
    assert_eq!(query(&client, &id, Ok(without)), Ok(None));
}

#[test]
fn unreachable_inclusion_service_is_retriable() {
    let client = test_client();
    let id = dispatch(&client, vec![0; 10], 1).unwrap().blob_id;
    let answer = query(&client, &id, Err("deadline exceeded".to_string()));
    assert_eq!(
        answer,
        Err(DAError {
            cause: Cause::InclusionQueryFailed,
            detail: "deadline exceeded".to_string(),
            is_retriable: true,
        })
    );
}

#[test]
fn answer_out_of_turn_ends_the_query() {
    let client = test_client();
    let (state, action) = client.get_inclusion_data(
        InclusionState::Idle,
        InclusionEvent::Answered(Err("x".to_string())),
    );
    assert_eq!(state, InclusionState::Done);
    assert!(matches!(
        action,
        InclusionAction::Finish(Err(DAError { cause: Cause::OutOfTurn, is_retriable: false, .. }))
    ));
}

#[test]
fn balance_failure_is_never_retriable() {
    let client = test_client();
    assert_eq!(client.balance(Ok(1234)), Ok(1234));
    for said in ["connection refused", "deadline exceeded", ""] {
        let e = client.balance(Err(said.to_string())).unwrap_err();
        assert_eq!(e.cause, Cause::BalanceQueryFailed);
        assert_eq!(e.detail, said);
        assert!(!e.is_retriable);
    }
}

#[test]
fn size_limit_is_just_under_two_mebibytes() {
    let client = test_client();
    assert_eq!(client.blob_size_limit(), Some(1973786));
    assert!(1973786 < 2 * 1024 * 1024);
}

#[test]
fn policy_table() {
    let retriable = [Cause::RegistrationFailed, Cause::InclusionQueryFailed];
    let fatal = [
        Cause::NamespaceNotHex,
        Cause::NamespaceInvalid,
        Cause::BlobRefused,
        Cause::SigningFailed,
        Cause::SubmissionFailed,
        Cause::BlobIdMalformed,
        Cause::ProofMissing,
        Cause::BalanceQueryFailed,
        Cause::OutOfTurn,
    ];
    for cause in retriable {
        assert!(classify(cause, String::new()).is_retriable);
    }
    for cause in fatal {
        assert!(!classify(cause, String::new()).is_retriable);
    }
    assert!(to_retriable_da_error(Cause::SubmissionFailed, "x".to_string()).is_retriable);
    assert!(!to_non_retriable_da_error(Cause::RegistrationFailed, "x".to_string()).is_retriable);
}

#[test]
fn message_joins_cause_and_detail() {
    let e = classify(Cause::SubmissionFailed, "connection reset".to_string());
    assert_eq!(e.message(), "the submission was not accepted: connection reset");
    let e = classify(Cause::BlobIdMalformed, String::new());
    assert_eq!(e.message(), "the blob id is malformed");
}

#[test]
fn startup_opens_the_network_first() {
    let config = config_with_namespace(TEST_NAMESPACE);
    let (state, action) = CelestiaClient::new(&config, StartupState::Fresh, StartupEvent::Requested);
    assert_eq!(state, StartupState::OpeningNetwork);
    assert_eq!(
        action,
        StartupAction::Connect {
            service: Service::Network,
            url: "http://localhost:9090".to_string(),
            timeout_ms: 20000,
        }
    );
    let (state, action) = CelestiaClient::new(&config, state, StartupEvent::Connected);
    assert_eq!(state, StartupState::OpeningInclusion);
    assert_eq!(
        action,
        StartupAction::Connect {
            service: Service::Inclusion,
            url: "http://localhost:50051".to_string(),
            timeout_ms: 20000,
        }
    );
    let (state, action) = CelestiaClient::new(&config, state, StartupEvent::Connected);
    assert_eq!(state, StartupState::Done);
    match action {
        StartupAction::Ready(client) => assert_eq!(client.config(), &config),
        other => panic!("{other:?}"),
    }
}

#[test]
fn startup_fails_with_the_first_channel_that_does_not_open() {
    let config = config_with_namespace(TEST_NAMESPACE);
    let (state, _) = CelestiaClient::new(&config, StartupState::Fresh, StartupEvent::Requested);
    let (state, action) =
        CelestiaClient::new(&config, state, StartupEvent::Refused("connection refused".to_string()));
    assert_eq!(state, StartupState::Done);
    assert_eq!(
        action,
        StartupAction::Abort(StartupError::Unreachable {
            service: Service::Network,
            said: "connection refused".to_string(),
        })
    );

    let (state, _) = CelestiaClient::new(&config, StartupState::Fresh, StartupEvent::Requested);
    let (state, _) = CelestiaClient::new(&config, state, StartupEvent::Connected);
    let (state, action) =
        CelestiaClient::new(&config, state, StartupEvent::Refused("timed out".to_string()));
    assert_eq!(state, StartupState::Done);
    assert_eq!(
        action,
        StartupAction::Abort(StartupError::Unreachable {
            service: Service::Inclusion,
            said: "timed out".to_string(),
        })
    );
}

#[test]
fn startup_hands_out_no_client_out_of_turn() {
    let config = config_with_namespace(TEST_NAMESPACE);
    for state in [StartupState::Fresh, StartupState::Done] {
        let (next, action) = CelestiaClient::new(&config, state, StartupEvent::Connected);
        assert_eq!(next, StartupState::Done);
        assert_eq!(action, StartupAction::Abort(StartupError::OutOfTurn));
    }
    let (next, action) =
        CelestiaClient::new(&config, StartupState::OpeningInclusion, StartupEvent::Requested);
    assert_eq!(next, StartupState::Done);
    assert_eq!(action, StartupAction::Abort(StartupError::OutOfTurn));
}

#[test]
fn startup_does_not_judge_the_namespace() {
    // an unusable namespace shows at the first dispatch, not when the client is made
    let client = client_with_namespace("not hex");
    assert_eq!(client.config().namespace, "not hex");
}

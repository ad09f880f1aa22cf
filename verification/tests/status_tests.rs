use splinter_backend::client::BatchStatuses;
use splinter_backend::client::SplinterBackendClient;
use splinter_backend::error::BackendClientError;
use splinter_backend::status::BatchStatus;
use splinter_backend::status::ErrorMessage;
use splinter_backend::status::SplinterBatchStatus;
use splinter_backend::status::Status;
use splinter_backend::status::status_outcome;

fn client() -> SplinterBackendClient {
    SplinterBackendClient::new(
        String::from("http://node:8085"),
        String::from("Bearer SECRET-REDACTED"),
    )
}

fn query(service_id: Option<&str>, batch_ids: &[&str], wait: Option<u64>) -> BatchStatuses {
    BatchStatuses {
        service_id: service_id.map(String::from),
        batch_ids: batch_ids.iter().map(|s| String::from(*s)).collect(),
        wait,
    }
}

#[test]
fn status_requires_a_service_id() {
    match client().batch_status(query(None, &["b1"], None)) {
        Err(BackendClientError::BadRequestError(m)) => {
            assert_eq!(m, "A service id must be provided")
        }
        _ => panic!("expected BadRequestError"),
    }
}

#[test]
fn status_url_with_wait_puts_wait_before_ids() {
    let p = client()
        .batch_status(query(Some("circuit1::svc1"), &["b1", "b2"], Some(30)))
        .ok()
        .unwrap();
    assert_eq!(
        p.url,
        "http://node:8085/scabbard/circuit1/svc1/batch_statuses?wait=30&ids=b1,b2"
    );
    assert_eq!(p.authorization, "Bearer SECRET-REDACTED");
}

#[test]
fn status_url_without_wait_has_no_wait_segment() {
    let p = client()
        .batch_status(query(Some("circuit1::svc1"), &["b1", "b2"], None))
        .ok()
        .unwrap();
    assert_eq!(
        p.url,
        "http://node:8085/scabbard/circuit1/svc1/batch_statuses?ids=b1,b2"
    );
    assert!(!p.url.contains("wait="));
}

#[test]
fn status_url_renders_a_zero_wait() {
    let p = client()
        .batch_status(query(Some("circuit1::svc1"), &["b1"], Some(0)))
        .ok()
        .unwrap();
    assert_eq!(
        p.url,
        "http://node:8085/scabbard/circuit1/svc1/batch_statuses?wait=0&ids=b1"
    );
}

#[test]
fn status_url_renders_a_multi_digit_wait() {
    let p = client()
        .batch_status(query(Some("circuit1::svc1"), &["b1"], Some(1234)))
        .ok()
        .unwrap();
    assert_eq!(
        p.url,
        "http://node:8085/scabbard/circuit1/svc1/batch_statuses?wait=1234&ids=b1"
    );
}

#[test]
fn status_url_with_no_batch_ids_has_an_empty_ids_value() {
    let p = client()
        .batch_status(query(Some("circuit1::svc1"), &[], None))
        .ok()
        .unwrap();
    assert_eq!(
        p.url,
        "http://node:8085/scabbard/circuit1/svc1/batch_statuses?ids="
    );
}

fn message(
    transaction_id: &str,
    error_message: Option<&str>,
    error_data: Option<Vec<u8>>,
) -> ErrorMessage {
    ErrorMessage {
        transaction_id: String::from(transaction_id),
        error_message: error_message.map(String::from),
        error_data,
    }
}

#[test]
fn normalization_keeps_only_complete_messages() {
    let remote = SplinterBatchStatus {
        id: String::from("b1"),
        status: Status {
            status_type: String::from("INVALID"),
            message: vec![
                message("t1", Some("bad"), Some(vec![1u8, 2u8, 3u8])),
                message("t2", None, None),
            ],
        },
    };
    let normalized = BatchStatus::from(remote);
    assert_eq!(normalized.id, "b1");
    assert_eq!(normalized.status, "INVALID");
    assert_eq!(normalized.invalid_transactions.len(), 1);
    assert_eq!(normalized.invalid_transactions[0].id, "t1");
    assert_eq!(normalized.invalid_transactions[0].message, "bad");
    assert_eq!(normalized.invalid_transactions[0].extended_data, "AQID");
}

#[test]
fn normalization_drops_messages_with_only_one_error_field() {
    let remote = SplinterBatchStatus {
        id: String::from("b2"),
        status: Status {
            status_type: String::from("INVALID"),
            message: vec![
                message("t1", Some("text only"), None),
                message("t2", None, Some(vec![9u8])),
            ],
        },
    };
    let normalized = BatchStatus::from(remote);
    assert!(normalized.invalid_transactions.is_empty());
}

#[test]
fn normalization_encodes_error_data_as_base64() {
    let remote = SplinterBatchStatus {
        id: String::from("b3"),
        status: Status {
            status_type: String::from("INVALID"),
            message: vec![message("t1", Some("oops"), Some(b"any carnal pleasure.".to_vec()))],
        },
    };
    let normalized = BatchStatus::from(remote);
    assert_eq!(
        normalized.invalid_transactions[0].extended_data,
        "YW55IGNhcm5hbCBwbGVhc3VyZS4="
    );
    assert_eq!(
        normalized.invalid_transactions[0].extended_data,
        base64::encode(b"any carnal pleasure.")
    );
}

#[test]
fn status_outcome_preserves_record_order() {
    let remote = vec![
        SplinterBatchStatus {
            id: String::from("b1"),
            status: Status {
                status_type: String::from("COMMITTED"),
                message: Vec::new(),
            },
        },
        SplinterBatchStatus {
            id: String::from("b2"),
            status: Status {
                status_type: String::from("PENDING"),
                message: Vec::new(),
            },
        },
    ];
    let normalized = status_outcome(Ok(remote)).ok().unwrap();
    assert_eq!(normalized.len(), 2);
    assert_eq!(normalized[0].id, "b1");
    assert_eq!(normalized[0].status, "COMMITTED");
    assert_eq!(normalized[1].id, "b2");
    assert_eq!(normalized[1].status, "PENDING");
}

#[test]
fn status_transport_failure_is_an_internal_error() {
    match status_outcome(Err(String::from("error decoding response body"))) {
        Err(BackendClientError::InternalError(m)) => {
            assert_eq!(
                m,
                "Unable to retrieve batch statuses: error decoding response body"
            )
        }
        _ => panic!("expected InternalError"),
    }
}

use splinter_backend::address::SplinterService;
use splinter_backend::error::BackendClientError;

fn expect_bad_request(r: Result<SplinterService, BackendClientError>) -> String {
    match r {
        Err(BackendClientError::BadRequestError(m)) => m,
        Err(BackendClientError::InternalError(m)) => {
            panic!("expected BadRequestError, got InternalError: {}", m)
        }
        Ok(_) => panic!("expected BadRequestError, got Ok"),
    }
}

#[test]
fn resolves_two_part_id() {
    let svc = SplinterService::from_str("circuit1::svc1").unwrap();
    assert_eq!(svc.circuit_id, "circuit1");
    assert_eq!(svc.service_id, "svc1");
}

#[test]
fn ignores_segments_beyond_the_second() {
    let svc = SplinterService::from_str("alpha::beta::gamma").unwrap();
    assert_eq!(svc.circuit_id, "alpha");
    assert_eq!(svc.service_id, "beta");
}

#[test]
fn rejects_empty_string() {
    let m = expect_bad_request(SplinterService::from_str(""));
    assert_eq!(m, "Empty service_id parameter provided");
}

#[test]
fn rejects_single_part() {
    let m = expect_bad_request(SplinterService::from_str("onlyonepart"));
    assert_eq!(
        m,
        "Must provide a fully-qualified service_id: <circuit_id>::<service_id>"
    );
}

#[test]
fn rejects_trailing_delimiter() {
    let m = expect_bad_request(SplinterService::from_str("circuit1::"));
    assert_eq!(
        m,
        "Must provide a fully-qualified service_id: <circuit_id>::<service_id>"
    );
}

#[test]
fn rejects_leading_delimiter() {
    let m = expect_bad_request(SplinterService::from_str("::svc1"));
    assert_eq!(m, "Empty service_id parameter provided");
}

#[test]
fn splits_at_the_first_delimiter_verbatim() {
    let svc = SplinterService::from_str("a:::b").unwrap();
    assert_eq!(svc.circuit_id, "a");
    assert_eq!(svc.service_id, ":b");
}

#[test]
fn segments_are_used_verbatim() {
    let svc = SplinterService::from_str("My Circuit::SVC 01").unwrap();
    assert_eq!(svc.circuit_id, "My Circuit");
    assert_eq!(svc.service_id, "SVC 01");
}

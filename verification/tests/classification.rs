use data_fetcher::{classify, is_success_status, resolve, HttpError, Outcome};

#[test]
fn success_statuses_yield_the_exact_body() {
    for status in [200u16, 201, 204, 250, 299] {
        let body = format!("body for {status}");
        let got = classify(status, body.clone()).unwrap();
        assert_eq!(got, body);
    }
}

#[test]
fn non_success_statuses_yield_a_status_error_and_no_text() {
    for status in [100u16, 199, 300, 301, 400, 404, 429, 500, 599] {
        let result = classify(status, "a body the caller must never see".to_string());
        let err = result.unwrap_err();
        assert_eq!(err, HttpError::Status { code: status });
        assert!(err.is_status_error());
        assert_eq!(err.status_code(), Some(status));
        assert!(!err.is_construction_error());
        assert!(!err.is_transport_error());
    }
}

#[test]
fn success_range_is_exactly_200_to_299() {
    assert!(!is_success_status(199));
    assert!(is_success_status(200));
    assert!(is_success_status(299));
    assert!(!is_success_status(300));
}

#[test]
fn completed_outcome_is_classified_by_status() {
    let ok = resolve(Outcome::Completed {
        status: 200,
        body: "fine".to_string(),
    });
    assert_eq!(ok.unwrap(), "fine");

    let err = resolve(Outcome::Completed {
        status: 503,
        body: "oops".to_string(),
    })
    .unwrap_err();
    assert_eq!(err, HttpError::Status { code: 503 });
}

#[test]
fn failed_outcome_is_a_transport_error() {
    let err = resolve(Outcome::Failed {
        message: "deadline elapsed".to_string(),
    })
    .unwrap_err();
    assert_eq!(
        err,
        HttpError::Transport {
            message: "deadline elapsed".to_string()
        }
    );
    assert!(err.is_transport_error());
    assert!(!err.is_status_error());
    assert_eq!(err.status_code(), None);
}

#[test]
fn not_found_never_yields_text() {
    let result = classify(404, "{\"status\":\"success\"}".to_string());
    assert!(result.is_err());
    let err = result.unwrap_err();
    assert_eq!(err.status_code(), Some(404));
}

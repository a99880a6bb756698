use data_fetcher::{DataFetcher, HttpError};

fn pairs(items: &[(&str, &str)]) -> Vec<(String, String)> {
    items
        .iter()
        .map(|(k, v)| (k.to_string(), v.to_string()))
        .collect()
}

#[test]
fn malformed_url_is_a_construction_error() {
    let client = DataFetcher::default();
    let err = client
        .get("not a url", None, &Vec::new())
        .unwrap_err();
    assert_eq!(err, HttpError::Url);
    assert!(err.is_construction_error());
    assert!(!err.is_transport_error());
    assert!(!err.is_status_error());
    assert_eq!(err.status_code(), None);
}

#[test]
fn relative_url_is_rejected() {
    let client = DataFetcher::default();
    let err = client.get("/test", None, &Vec::new()).unwrap_err();
    assert_eq!(err, HttpError::Url);
}

#[test]
fn valid_url_is_accepted() {
    let client = DataFetcher::default();
    assert!(client
        .get("http://localhost:8080/test?x=1", None, &Vec::new())
        .is_ok());
}

#[test]
fn header_value_with_newline_is_rejected_by_name() {
    let client = DataFetcher::default();
    let headers = pairs(&[("x-ok", "fine"), ("x-bad", "line\nbreak")]);
    let err = client
        .get("http://example.com/test", Some(&headers), &Vec::new())
        .unwrap_err();
    assert_eq!(
        err,
        HttpError::Header {
            name: "x-bad".to_string()
        }
    );
    assert!(err.is_construction_error());
}

#[test]
fn header_name_with_space_is_rejected() {
    let client = DataFetcher::default();
    let headers = pairs(&[("bad name", "value")]);
    let err = client
        .get("http://example.com/test", Some(&headers), &Vec::new())
        .unwrap_err();
    assert_eq!(
        err,
        HttpError::Header {
            name: "bad name".to_string()
        }
    );
}

#[test]
fn first_bad_header_is_the_one_reported() {
    let client = DataFetcher::default();
    let headers = pairs(&[("x-one", "ok"), ("x-two", "bad\u{0}"), ("three bad", "x")]);
    let err = client
        .get("http://example.com/test", Some(&headers), &Vec::new())
        .unwrap_err();
    assert_eq!(
        err,
        HttpError::Header {
            name: "x-two".to_string()
        }
    );
}

#[test]
fn ordinary_headers_pass_validation() {
    let client = DataFetcher::default();
    let headers = pairs(&[("authorization", "Bearer abc"), ("x-custom", "1")]);
    let plan = client
        .get("http://example.com/test", Some(&headers), &Vec::new())
        .unwrap();
    assert_eq!(plan.headers, headers);
}

#[test]
fn bad_url_is_reported_before_bad_headers() {
    let client = DataFetcher::default();
    let headers = pairs(&[("bad name", "value")]);
    let err = client
        .get("::nonsense::", Some(&headers), &Vec::new())
        .unwrap_err();
    assert_eq!(err, HttpError::Url);
}

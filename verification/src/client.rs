use vstd::prelude::*;

use crate::error::HttpError;
use crate::request::{copy_pairs, pair_match, pairs_match};
use crate::request::{Form, Headers, Method, Payload, Query, RequestPlan};
use crate::validate::{header_name_is_valid, header_value_is_valid, url_is_valid};
use crate::validate::{valid_header_name, valid_header_value, valid_url};

verus! {

/// The request timeout every client is built with, in seconds. It bounds
/// each request on its own; there is no retry layer it could accumulate
/// over.
pub const DEFAULT_TIMEOUT_SECS: u64 = 10;

/// Spec-level: the headers a request will carry — the supplied ones, or
/// none.
pub open spec fn given_headers(headers: Option<&Headers>) -> Seq<(String, String)> {
    match headers {
        Some(h) => h@,
        None => Seq::empty(),
    }
}

/// Spec-level: every supplied header has a legal name and a legal value.
pub open spec fn headers_acceptable(h: Seq<(String, String)>) -> bool {
    forall|i: int| #![trigger h[i]]
        0 <= i < h.len() ==> valid_header_name(h[i].0@) && valid_header_value(h[i].1@)
}

/// Spec-level: the error names the first header, in supplied order, whose
/// name or value is illegal; everything before it is legal.
pub open spec fn header_rejected(h: Seq<(String, String)>, i: int, e: HttpError) -> bool {
    &&& 0 <= i < h.len()
    &&& !(valid_header_name(h[i].0@) && valid_header_value(h[i].1@))
    &&& forall|j: int| #![trigger h[j]]
        0 <= j < i ==> valid_header_name(h[j].0@) && valid_header_value(h[j].1@)
    &&& e matches HttpError::Header { name } && name@ == h[i].0@
}

/// Spec-level: what every planner promises of its result, apart from the
/// method and the payload. A plan comes back exactly when the URL is a
/// valid absolute URL and every header is legal; a malformed URL is
/// reported first; an illegal header is reported by name; a plan carries
/// the URL and the headers exactly as supplied.
pub open spec fn planned(
    r: Result<RequestPlan, HttpError>,
    url: Seq<char>,
    hs: Seq<(String, String)>,
) -> bool {
    &&& r is Ok <==> valid_url(url) && headers_acceptable(hs)
    &&& !valid_url(url) ==> r == Err::<RequestPlan, HttpError>(HttpError::Url)
    &&& valid_url(url) && !headers_acceptable(hs) ==> (r matches Err(e) && exists|i: int|
        header_rejected(hs, i, e))
    &&& r matches Ok(plan) ==> plan.url@ == url && pairs_match(plan.headers@, hs)
}

/// The client core. It owns the fixed configuration of the transport
/// handle — the request timeout — and it plans every request: it validates
/// the URL and the headers and fixes the method and the payload encoding.
/// It is immutable after construction, so one instance serves any number
/// of concurrent requests; a failed request never makes it unusable.
#[derive(Debug, Clone)]
pub struct DataFetcher {
    timeout_secs: u64,
}

impl DataFetcher {
    /// Spec-level: the timeout this client was built with.
    pub closed spec fn spec_timeout_secs(&self) -> u64 {
        self.timeout_secs
    }

    /// The timeout, in seconds, that bounds each request this client
    /// plans.
    pub fn timeout_secs(&self) -> (r: u64)
        ensures
            r == self.spec_timeout_secs(),
    {
        self.timeout_secs
    }

    /// Shared by all five operations: check the URL, check and copy the
    /// headers, and assemble the plan the transport will perform. The
    /// operations differ only in the method and the payload they hand in.
    fn request(
        &self,
        method: Method,
        url: &str,
        headers: Option<&Headers>,
        payload: Payload,
    ) -> (r: Result<RequestPlan, HttpError>)
        ensures
            planned(r, url@, given_headers(headers)),
            r matches Ok(plan) ==> plan.method == method && plan.payload == payload,
    {
        if !url_is_valid(url) {
            return Err(HttpError::Url);
        }
        let mut hs: Vec<(String, String)> = Vec::new();
        match headers {
            None => {},
            Some(given) => {
                let mut i: usize = 0;
                while i < given.len()
                    invariant
                        valid_url(url@),
                        given_headers(headers) == given@,
                        i <= given.len(),
                        hs@.len() == i,
                        forall|j: int| 0 <= j < i ==> pair_match(#[trigger] hs@[j], given@[j]),
                        forall|j: int| #![trigger given@[j]]
                            0 <= j < i ==> valid_header_name(given@[j].0@)
                                && valid_header_value(given@[j].1@),
                    decreases given.len() - i,
                {
                    let p = &given[i];
                    let name_ok = header_name_is_valid(p.0.as_str());
                    let value_ok = header_value_is_valid(p.1.as_str());
                    if !name_ok || !value_ok {
                        let e = HttpError::Header { name: p.0.clone() };
                        proof {
                            assert(given_headers(headers) == given@);
                            assert(header_rejected(given@, i as int, e));
                            assert(!headers_acceptable(given@));
                        }
                        return Err(e);
                    }
                    hs.push((p.0.clone(), p.1.clone()));
                    i = i + 1;
                }
            },
        }
        Ok(RequestPlan { method, url: url.to_owned(), headers: hs, payload })
    }

    /// Plans a GET. The supplied pairs — exactly these, in this order —
    /// become the query string; an empty map means nothing is appended to
    /// the URL.
    pub fn get(&self, url: &str, headers: Option<&Headers>, payload: &Query) -> (r: Result<
        RequestPlan,
        HttpError,
    >)
        ensures
            planned(r, url@, given_headers(headers)),
            r matches Ok(plan) ==> plan.method == Method::Get && (plan.payload matches
                Payload::Query(q) && pairs_match(q@, payload@)),
    {
        self.request(Method::Get, url, headers, Payload::Query(copy_pairs(payload)))
    }

    /// Plans a POST whose body is the supplied JSON document, carried to
    /// the transport exactly as given; the JSON content type is the
    /// transport's to set, and a caller-supplied header overrides it.
    pub fn post(&self, url: &str, headers: Option<&Headers>, payload: &serde_json::Value) -> (r:
        Result<RequestPlan, HttpError>)
        ensures
            planned(r, url@, given_headers(headers)),
            r matches Ok(plan) ==> plan.method == Method::Post && plan.payload == Payload::Json(
                *payload,
            ),
    {
        self.request(Method::Post, url, headers, Payload::Json(payload.clone()))
    }

    /// Plans a POST whose body is the supplied pairs, form-encoded —
    /// exactly these pairs, in this order.
    pub fn post_form(&self, url: &str, headers: Option<&Headers>, payload: &Form) -> (r: Result<
        RequestPlan,
        HttpError,
    >)
        ensures
            planned(r, url@, given_headers(headers)),
            r matches Ok(plan) ==> plan.method == Method::Post && (plan.payload matches
                Payload::Form(f) && pairs_match(f@, payload@)),
    {
        self.request(Method::Post, url, headers, Payload::Form(copy_pairs(payload)))
    }

    /// Plans a PUT with a JSON body, encoded as for `post`.
    pub fn put(&self, url: &str, headers: Option<&Headers>, payload: &serde_json::Value) -> (r:
        Result<RequestPlan, HttpError>)
        ensures
            planned(r, url@, given_headers(headers)),
            r matches Ok(plan) ==> plan.method == Method::Put && plan.payload == Payload::Json(
                *payload,
            ),
    {
        self.request(Method::Put, url, headers, Payload::Json(payload.clone()))
    }

    /// Plans a DELETE that still carries a JSON body — a deliberate
    /// deviation from the common no-body convention, kept for servers that
    /// expect one.
    pub fn delete(&self, url: &str, headers: Option<&Headers>, payload: &serde_json::Value) -> (r:
        Result<RequestPlan, HttpError>)
        ensures
            planned(r, url@, given_headers(headers)),
            r matches Ok(plan) ==> plan.method == Method::Delete && plan.payload == Payload::Json(
                *payload,
            ),
    {
        self.request(Method::Delete, url, headers, Payload::Json(payload.clone()))
    }
}

impl Default for DataFetcher {
    /// Builds a client configured with the fixed default timeout. Nothing
    /// here can fail: the configuration is a constant.
    fn default() -> (r: Self)
        ensures
            r.spec_timeout_secs() == DEFAULT_TIMEOUT_SECS,
    {
        DataFetcher { timeout_secs: DEFAULT_TIMEOUT_SECS }
    }
}

} // verus!

use vstd::prelude::*;

verus! {

/// Header names and values as the caller supplies them, one pair per
/// header. The client borrows them for a single request and never keeps
/// them.
pub type Headers = Vec<(String, String)>;

/// Query parameters of a GET request, one pair per parameter.
pub type Query = Vec<(String, String)>;

/// Fields of a form-encoded request body, one pair per field.
pub type Form = Vec<(String, String)>;

/// The HTTP methods the client issues.
#[derive(Debug, Clone, Copy, PartialEq, Eq, Structural)]
pub enum Method {
    Get,
    Post,
    Put,
    Delete,
}

impl Method {
    /// The method's name as it stands on the wire.
    pub fn name(&self) -> (r: &'static str)
        ensures
            self is Get ==> r@ == "GET"@,
            self is Post ==> r@ == "POST"@,
            self is Put ==> r@ == "PUT"@,
            self is Delete ==> r@ == "DELETE"@,
    {
        match self {
            Method::Get => "GET",
            Method::Post => "POST",
            Method::Put => "PUT",
            Method::Delete => "DELETE",
        }
    }
}

/// The payload of one request, tagged with the encoding the transport must
/// apply to it. Each operation of the client fixes one of these shapes;
/// nothing dispatches on the payload at run time.
#[derive(Debug)]
pub enum Payload {
    /// Pairs the transport serializes into the URL's query string (GET).
    /// No pairs mean no query string is appended at all.
    Query(Vec<(String, String)>),
    /// A JSON document the transport serializes as the request body
    /// (POST, PUT and — deliberately, for servers that expect one — DELETE).
    Json(serde_json::Value),
    /// Pairs the transport serializes as an
    /// application/x-www-form-urlencoded body (POST).
    Form(Vec<(String, String)>),
}

/// Everything the transport needs in order to perform one request. A plan
/// is built and checked before anything touches the network; a request
/// that cannot be planned is never dispatched.
#[derive(Debug)]
pub struct RequestPlan {
    pub method: Method,
    pub url: String,
    pub headers: Vec<(String, String)>,
    pub payload: Payload,
}

/// Spec-level: the two pairs hold the same name and the same value.
pub open spec fn pair_match(a: (String, String), b: (String, String)) -> bool {
    a.0@ == b.0@ && a.1@ == b.1@
}

/// Spec-level: the two pair sequences agree in length and, position by
/// position, in names and values.
pub open spec fn pairs_match(a: Seq<(String, String)>, b: Seq<(String, String)>) -> bool {
    a.len() == b.len() && forall|i: int|
        0 <= i < a.len() ==> pair_match(#[trigger] a[i], b[i])
}

/// Spec-level: the pairs as mathematical values, order kept.
pub open spec fn pair_views(s: Seq<(String, String)>) -> Seq<(Seq<char>, Seq<char>)> {
    s.map(|i: int, p: (String, String)| (p.0@, p.1@))
}

/// Law: a plan built from an empty pair map carries no pairs at all, so
/// the transport has nothing to serialize — in particular, a GET planned
/// with an empty query map carries no query string material.
pub proof fn lemma_empty_pairs_plan_is_bare(
    plan_pairs: Seq<(String, String)>,
    supplied: Seq<(String, String)>,
)
    requires
        pairs_match(plan_pairs, supplied),
        supplied.len() == 0,
    ensures
        plan_pairs.len() == 0,
{
}

/// Law: a plan carries exactly the supplied pairs — read as an unordered
/// collection of name/value pairs, nothing is added, dropped or changed.
pub proof fn lemma_plan_pairs_exact(a: Seq<(String, String)>, b: Seq<(String, String)>)
    requires
        pairs_match(a, b),
    ensures
        pair_views(a).to_multiset() == pair_views(b).to_multiset(),
{
    assert(pair_views(a) =~= pair_views(b));
}

/// Copies caller-supplied pairs into an owned vector, preserving order.
pub fn copy_pairs(src: &Vec<(String, String)>) -> (r: Vec<(String, String)>)
    ensures
        pairs_match(r@, src@),
{
    let mut out: Vec<(String, String)> = Vec::new();
    let mut i: usize = 0;
    while i < src.len()
        invariant
            i <= src.len(),
            out@.len() == i,
            forall|j: int| 0 <= j < i ==> pair_match(#[trigger] out@[j], src@[j]),
        decreases src.len() - i,
    {
        let p = &src[i];
        out.push((p.0.clone(), p.1.clone()));
        i = i + 1;
    }
    out
}

} // verus!

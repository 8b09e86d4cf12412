//! Core logic of a minimal web service with a single liveness endpoint.
//!
//! The library holds what can be stated and proved: the shape of the
//! responses the service produces and the routing decision that picks the
//! health-check handler. The HTTP listener, the asynchronous runtime and the
//! socket live outside the library and hand it plain values.

use vstd::prelude::*;

verus! {

/// An HTTP response as the service produces it: a status code and a body.
pub struct Response {
    pub status: u16,
    pub body: Vec<u8>,
}

/// A status code in the 2xx range signals success.
pub open spec fn spec_is_success(status: u16) -> bool {
    200 <= status && status < 300
}

impl Response {
    /// The number of body bytes; what the `Content-Length` header carries.
    pub fn content_length(&self) -> (n: usize)
        ensures
            n == self.body@.len(),
    {
        self.body.len()
    }

    /// Whether the status code signals success (2xx).
    pub fn is_success(&self) -> (r: bool)
        ensures
            r == spec_is_success(self.status),
    {
        200 <= self.status && self.status < 300
    }
}

/// The health-check handler: unconditionally status 200 with an empty body,
/// with no further request inspection and no side effects.
pub fn health_check() -> (r: Response)
    ensures
        r.status == 200,
        r.body@.len() == 0,
        spec_is_success(r.status),
{
    Response { status: 200, body: Vec::new() }
}

/// Character-for-character equality of two string slices.
fn str_eq(a: &str, b: &str) -> (r: bool)
    ensures
        r == (a@ == b@),
{
    let a_len = a.unicode_len();
    let b_len = b.unicode_len();
    if a_len != b_len {
        return false;
    }
    let mut i: usize = 0;
    while i < a_len
        invariant
            a_len == a@.len(),
            b_len == b@.len(),
            a_len == b_len,
            i <= a_len,
            forall|j: int| 0 <= j < i ==> a@[j] == b@[j],
        decreases a_len - i,
    {
        if a.get_char(i) != b.get_char(i) {
            return false;
        }
        i = i + 1;
    }
    proof {
        assert(a@ =~= b@);
    }
    true
}

/// The one registered route: a `GET` request to `/health_check` matches it.
pub open spec fn routes_to_health_check(method: Seq<char>, path: Seq<char>) -> bool {
    method == "GET"@ && path == "/health_check"@
}

/// The service's routing decision, from the request line to the response:
/// `GET /health_check` is dispatched to the health-check handler; every
/// other method or path falls through to `404 Not Found` with an empty
/// body. The response succeeds exactly when the health-check route matches.
pub fn handle_request(method: &str, path: &str) -> (r: Response)
    ensures
        routes_to_health_check(method@, path@) ==> r.status == 200,
        !routes_to_health_check(method@, path@) ==> r.status == 404,
        r.body@.len() == 0,
        spec_is_success(r.status) <==> routes_to_health_check(method@, path@),
{
    if str_eq(method, "GET") && str_eq(path, "/health_check") {
        health_check()
    } else {
        Response { status: 404, body: Vec::new() }
    }
}

} // verus!

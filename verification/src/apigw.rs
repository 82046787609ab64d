//! The transport adapter: the boundary between the HTTP-like request/response
//! shapes and the request handlers.

use vstd::prelude::*;

verus! {

/// An inbound HTTP-like request: the path parameters, the method, and an
/// opaque body that both entry points ignore.
pub struct Request {
    pub path_parameters: Vec<(String, String)>,
    pub method: String,
    pub body: Option<String>,
}

/// An outbound HTTP-like response: a status code and a plain-text body,
/// with an empty header set.
pub struct Response {
    pub status_code: i64,
    pub headers: Vec<(String, String)>,
    pub body: String,
    pub is_base64_encoded: bool,
}

/// Holds when `r` is a well-formed plain-text response carrying exactly
/// `status` and `body`: no headers, and not base64-encoded.
pub open spec fn is_response(r: Response, status: int, body: Seq<char>) -> bool {
    &&& r.status_code == status
    &&& r.body@ == body
    &&& r.headers@.len() == 0
    &&& !r.is_base64_encoded
}

/// The value bound to `key` in a parameter list; the first binding wins.
pub open spec fn param_value(params: Seq<(String, String)>, key: Seq<char>) -> Option<Seq<char>>
    decreases params.len(),
{
    if params.len() == 0 {
        None
    } else if params[0].0@ == key {
        Some(params[0].1@)
    } else {
        param_value(params.drop_first(), key)
    }
}

/// The path identifier of a request: the value under the path key "id".
pub open spec fn spec_identifier(req: Request) -> Option<Seq<char>> {
    param_value(req.path_parameters@, "id"@)
}

proof fn lemma_param_value_skip(params: Seq<(String, String)>, key: Seq<char>, i: int)
    requires
        0 <= i <= params.len(),
        forall|j: int| 0 <= j < i ==> params[j].0@ != key,
    ensures
        param_value(params, key) == param_value(params.skip(i), key),
    decreases i,
{
    if i == 0 {
        assert(params.skip(0) =~= params);
    } else {
        lemma_param_value_skip(params, key, i - 1);
        assert(params.skip(i - 1)[0] == params[i - 1]);
        assert(params[i - 1].0@ != key);
        assert(params.skip(i - 1).drop_first() =~= params.skip(i));
        assert(param_value(params.skip(i - 1), key) == param_value(params.skip(i), key));
    }
}

/// Returns the path identifier if the request's path-parameter set binds the
/// key "id", else returns nothing. No side effects.
pub fn extract_identifier(req: &Request) -> (r: Option<String>)
    ensures
        match r {
            Some(id) => spec_identifier(*req) == Some(id@),
            None => spec_identifier(*req) is None,
        },
{
    let key = String::from_str("id");
    let n: usize = req.path_parameters.len();
    let mut i: usize = 0;
    while i < n
        invariant
            i <= n,
            n == req.path_parameters@.len(),
            key@ == "id"@,
            forall|j: int| 0 <= j < i ==> req.path_parameters@[j].0@ != "id"@,
        decreases n - i,
    {
        let pair = &req.path_parameters[i];
        if pair.0 == key {
            proof {
                lemma_param_value_skip(req.path_parameters@, "id"@, i as int);
                assert(req.path_parameters@.skip(i as int)[0] == req.path_parameters@[i as int]);
            }
            return Some(pair.1.clone());
        }
        i += 1;
    }
    proof {
        lemma_param_value_skip(req.path_parameters@, "id"@, n as int);
        assert(req.path_parameters@.skip(n as int) =~= Seq::<(String, String)>::empty());
    }
    None
}

/// Renders an outcome as a response: a plain-text body (not base64-encoded)
/// and an empty header set. Pure and total.
pub fn respond(status_code: i64, body: String) -> (r: Response)
    ensures
        is_response(r, status_code as int, body@),
{
    Response {
        status_code,
        headers: Vec::new(),
        body,
        is_base64_encoded: false,
    }
}

} // verus!

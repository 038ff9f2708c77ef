//! A handler that answers with the name of the request's method.

use vstd::prelude::*;
use vstd::string::*;
use vstd::utf8::encode_utf8;
use crate::message::{plain_response, Method, Response};

verus! {

/// The name that `endpoint` answers with.
pub open spec fn method_name(method: Method) -> Seq<char> {
    match method {
        Method::Get => "GET"@,
        Method::Put => "PUT"@,
        Method::Post => "POST"@,
        Method::Delete => "DELETE"@,
        Method::Other => "UNKNOWN"@,
    }
}

/// Answers a request with the name of its method as the body.
pub fn endpoint(method: Method) -> (response: Response)
    ensures
        response@ == plain_response(encode_utf8(method_name(method))),
{
    let body = match method {
        Method::Get => "GET",
        Method::Put => "PUT",
        Method::Post => "POST",
        Method::Delete => "DELETE",
        Method::Other => "UNKNOWN",
    };
    Response::plain(body.as_bytes_vec())
}

} // verus!

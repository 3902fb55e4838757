//! The response model, and the permissive cross-origin policy that every
//! response carries.

use vstd::prelude::*;

verus! {

/// One response header.
#[derive(Debug)]
pub struct Header {
    pub name: String,
    pub value: String,
}

/// An HTTP-style response: status, headers, and a textual body.
#[derive(Debug)]
pub struct HttpResponse {
    pub status: u16,
    pub headers: Vec<Header>,
    pub body: String,
}

/// A header set is permissive when it allows any request origin.
pub open spec fn spec_permissive(headers: Seq<Header>) -> bool {
    exists|i: int|
        0 <= i < headers.len() && (#[trigger] headers[i]).name@
            == "access-control-allow-origin"@ && headers[i].value@ == "*"@
}

/// Build a response carrying the permissive cross-origin policy: any
/// origin, any method, any header, with preflight results cacheable for
/// an hour. Every response of the service, success or failure, is built
/// here.
pub fn respond_with_cors(status: u16, body: String) -> (r: HttpResponse)
    ensures
        r.status == status,
        r.body == body,
        r.headers@.len() == 4,
        r.headers@[0].name@ == "access-control-allow-origin"@ && r.headers@[0].value@ == "*"@,
        r.headers@[1].name@ == "access-control-allow-methods"@ && r.headers@[1].value@ == "*"@,
        r.headers@[2].name@ == "access-control-allow-headers"@ && r.headers@[2].value@ == "*"@,
        r.headers@[3].name@ == "access-control-max-age"@ && r.headers@[3].value@ == "3600"@,
        spec_permissive(r.headers@),
{
    let mut headers: Vec<Header> = Vec::new();
    headers.push(Header { name: "access-control-allow-origin".to_owned(), value: "*".to_owned() });
    headers.push(
        Header { name: "access-control-allow-methods".to_owned(), value: "*".to_owned() },
    );
    headers.push(
        Header { name: "access-control-allow-headers".to_owned(), value: "*".to_owned() },
    );
    headers.push(Header { name: "access-control-max-age".to_owned(), value: "3600".to_owned() });
    let r = HttpResponse { status, headers, body };
    proof {
        assert(r.headers@[0].name@ == "access-control-allow-origin"@ && r.headers@[0].value@
            == "*"@);
    }
    r
}

} // verus!

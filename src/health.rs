//! The fixed reply of the HTTP health-check responder.

use vstd::prelude::*;
use vstd::string::StringSliceAdditionalSpecFns;
use crate::config::{decimal, push_decimal};

verus! {

/// A `200 OK` reply carrying `body`, whose length in bytes is `len`.
pub open spec fn http_ok_text(body: Seq<char>, len: nat) -> Seq<char> {
    "HTTP/1.1 200 OK\r\nContent-Length: "@ + decimal(len) + "\r\n\r\n"@ + body
}

/// A `200 OK` reply carrying `body`, with its length in bytes as the
/// `Content-Length`.
pub fn http_ok_response(body: &str) -> (r: String)
    ensures
        r@ == http_ok_text(body@, body.spec_bytes().len()),
{
    let len = body.as_bytes().len();
    let mut r = String::from_str("HTTP/1.1 200 OK\r\nContent-Length: ");
    push_decimal(&mut r, len as u64);
    r.append("\r\n\r\n");
    r.append(body);
    r
}

/// The reply the health-check responder writes to every connection it accepts,
/// whatever the node is doing: `200 OK` with the body `OK`.
pub fn health_response() -> (r: String)
    ensures
        r@ == "HTTP/1.1 200 OK\r\nContent-Length: 2\r\n\r\nOK"@,
{
    let r = http_ok_response("OK");
    proof {
        reveal_strlit("OK");
        reveal_strlit("2");
        reveal_strlit("HTTP/1.1 200 OK\r\nContent-Length: ");
        reveal_strlit("\r\n\r\n");
        reveal_strlit("HTTP/1.1 200 OK\r\nContent-Length: 2\r\n\r\nOK");
        assert("OK".spec_bytes().len() == 2) by {
            vstd::string::is_ascii_spec_bytes("OK");
        }
        assert(r@ =~= "HTTP/1.1 200 OK\r\nContent-Length: 2\r\n\r\nOK"@);
    }
    r
}

} // verus!

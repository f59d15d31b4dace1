//! The fixed HTTP response a connection receives after a successful
//! handshake: a `200 OK` status with a three-byte plain-text body, after
//! which the connection is closed.

use vstd::prelude::*;

verus! {

/// The response head: status line and headers, through the blank line.
pub fn ok_response_head() -> (r: &'static str)
    ensures
        r@
            == "HTTP/1.1 200 OK\r\nContent-Length: 3\r\nContent-Type: text/plain\r\nConnection: close\r\n\r\n"@,
{
    "HTTP/1.1 200 OK\r\nContent-Length: 3\r\nContent-Type: text/plain\r\nConnection: close\r\n\r\n"
}

/// The response body.
pub fn ok_response_body() -> (r: &'static str)
    ensures
        r@ == "ok\n"@,
{
    "ok\n"
}

/// Law: the advertised `Content-Length` of 3 is the body's length.
pub proof fn lemma_content_length_consistent()
    ensures
        "ok\n"@.len() == 3,
{
    reveal_strlit("ok\n");
}

} // verus!

//! Wire-format construction for the hand-rolled single-shot HTTP/1.1
//! client: one request, built by hand as bytes, with `Host`, `Accept`,
//! `Connection: close`, an optional bearer `Authorization`, and
//! `Content-Length`. Kept pure and separate from the socket layer.

use vstd::prelude::*;
use vstd::string::StringSliceAdditionalSpecFns;
use crate::text::dec_digits;

verus! {

/// The exact bytes of one HTTP/1.1 request. `auth` is the bearer token
/// to send, already sanitized; `None` leaves the header out.
pub open spec fn http_request_bytes(
    method: Seq<u8>,
    target: Seq<u8>,
    host: Seq<u8>,
    auth: Option<Seq<u8>>,
    body: Seq<u8>,
) -> Seq<u8> {
    method + (" ").spec_bytes() + target + (" HTTP/1.1\r\nHost: ").spec_bytes() + host + (
    "\r\nAccept: application/json\r\nAccept-Encoding: identity\r\nConnection: close\r\n").spec_bytes()
        + (match auth {
        Some(t) => ("Authorization: Bearer ").spec_bytes() + t + ("\r\n").spec_bytes(),
        None => Seq::<u8>::empty(),
    }) + ("Content-Type: application/json\r\nContent-Length: ").spec_bytes() + dec_digits(
        body.len() as usize as nat,
    ) + ("\r\n\r\n").spec_bytes() + body
}

fn push_str_bytes(out: &mut Vec<u8>, s: &str)
    ensures
        final(out)@ == old(out)@ + s.spec_bytes(),
{
    out.extend_from_slice(s.as_bytes());
    proof {
        assert(out@ =~= old(out)@ + s.spec_bytes());
    }
}

/// Builds one HTTP/1.1 request. The token, where given, is sent as a
/// bearer `Authorization` header; callers sanitize it first.
pub fn build_http_request(
    method: &str,
    target: &str,
    host: &str,
    body: &str,
    auth_token: Option<&str>,
) -> (r: Vec<u8>)
    ensures
        r@ == http_request_bytes(
            method.spec_bytes(),
            target.spec_bytes(),
            host.spec_bytes(),
            match auth_token {
                Some(t) => Some(t.spec_bytes()),
                None => None,
            },
            body.spec_bytes(),
        ),
{
    let mut out: Vec<u8> = Vec::new();
    push_str_bytes(&mut out, method);
    push_str_bytes(&mut out, " ");
    push_str_bytes(&mut out, target);
    push_str_bytes(&mut out, " HTTP/1.1\r\nHost: ");
    push_str_bytes(&mut out, host);
    push_str_bytes(
        &mut out,
        "\r\nAccept: application/json\r\nAccept-Encoding: identity\r\nConnection: close\r\n",
    );
    match auth_token {
        Some(t) => {
            push_str_bytes(&mut out, "Authorization: Bearer ");
            push_str_bytes(&mut out, t);
            push_str_bytes(&mut out, "\r\n");
        },
        None => {},
    }
    push_str_bytes(&mut out, "Content-Type: application/json\r\nContent-Length: ");
    let digits = crate::text::u64_dec_bytes(body.len() as u64);
    out.extend_from_slice(digits.as_slice());
    push_str_bytes(&mut out, "\r\n\r\n");
    push_str_bytes(&mut out, body);
    proof {
        assert(out@ =~= http_request_bytes(
            method.spec_bytes(),
            target.spec_bytes(),
            host.spec_bytes(),
            match auth_token {
                Some(t) => Some(t.spec_bytes()),
                None => None,
            },
            body.spec_bytes(),
        ));
    }
    out
}

} // verus!

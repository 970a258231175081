//! Raw HTTP/1.1 responses with a JSON body, as served by a stand-in for the
//! Zotero local API.

use vstd::prelude::*;

use crate::text::{decimal_digits, extend_str, string_from_chars, usize_to_decimal, extend_chars};

verus! {

/// The header lines for `headers`, each `name: value` and CRLF, in order.
pub open spec fn header_lines(headers: Seq<(Seq<char>, Seq<char>)>) -> Seq<char>
    decreases headers.len(),
{
    if headers.len() == 0 {
        Seq::empty()
    } else {
        header_lines(headers.drop_last()) + headers.last().0 + ": "@ + headers.last().1 + "\r\n"@
    }
}

/// The characters of a list of header pairs.
pub open spec fn headers_view(headers: Seq<(&str, &str)>) -> Seq<(Seq<char>, Seq<char>)> {
    headers.map_values(|h: (&str, &str)| (h.0@, h.1@))
}

/// A response with status line `status`, the header lines `extra`, then
/// the length of the body (`body_len` bytes), a JSON content type and
/// `Connection: close`, a blank line and the body.
pub open spec fn http_response_spec(status: Seq<char>, extra: Seq<char>, body: Seq<char>, body_len: nat) -> Seq<char> {
    "HTTP/1.1 "@ + status + "\r\n"@ + extra + "Content-Length: "@ + decimal_digits(body_len)
        + "\r\nContent-Type: application/json\r\nConnection: close\r\n\r\n"@ + body
}

fn response_text(status: &str, extra: &Vec<char>, body: &str) -> (r: String)
    ensures
        r@ == http_response_spec(status@, extra@, body@, body.len() as nat),
{
    let mut out: Vec<char> = Vec::new();
    extend_str(&mut out, "HTTP/1.1 ");
    extend_str(&mut out, status);
    extend_str(&mut out, "\r\n");
    extend_chars(&mut out, extra);
    extend_str(&mut out, "Content-Length: ");
    let n = usize_to_decimal(body.len());
    extend_chars(&mut out, &n);
    extend_str(&mut out, "\r\nContent-Type: application/json\r\nConnection: close\r\n\r\n");
    extend_str(&mut out, body);
    assert(out@ =~= http_response_spec(status@, extra@, body@, body.len() as nat));
    string_from_chars(&out)
}

/// A response with status `status` and JSON body `body`.
pub fn http_response(status: &str, body: &str) -> (r: String)
    ensures
        r@ == http_response_spec(status@, Seq::empty(), body@, body.len() as nat),
{
    let extra: Vec<char> = Vec::new();
    response_text(status, &extra, body)
}

/// A response with status `status`, the extra `headers` before the
/// standard ones, and JSON body `body`.
pub fn http_response_with_headers(status: &str, headers: &[(&str, &str)], body: &str) -> (r: String)
    ensures
        r@ == http_response_spec(status@, header_lines(headers_view(headers@)), body@, body.len() as nat),
{
    let mut extra: Vec<char> = Vec::new();
    let mut i: usize = 0;
    while i < headers.len()
        invariant
            0 <= i <= headers.len(),
            extra@ == header_lines(headers_view(headers@).take(i as int)),
        decreases headers.len() - i,
    {
        let (name, value) = headers[i];
        proof {
            let hs = headers_view(headers@);
            assert(hs.take(i + 1).drop_last() =~= hs.take(i as int));
            assert(hs.take(i + 1).last() == (name@, value@));
        }
        extend_str(&mut extra, name);
        extend_str(&mut extra, ": ");
        extend_str(&mut extra, value);
        extend_str(&mut extra, "\r\n");
        i = i + 1;
    }
    assert(headers_view(headers@).take(headers.len() as int) =~= headers_view(headers@));
    response_text(status, &extra, body)
}

} // verus!

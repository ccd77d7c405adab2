//! The two-route responder used by the listener: recognizes one fixed
//! request line and frames a fixed-format response.
//!
//! The wire format is stated over byte sequences: a response is the
//! status line, a `Content-Length` header whose value is the decimal
//! byte length of the body, a blank line, and the body.  The listener
//! in the surrounding program does the reading and writing; this module
//! only computes bytes from bytes.

use vstd::prelude::*;
use vstd::slice::slice_index_get;

verus! {

/// The bytes of `"GET / HTTP/1.1\r\n"`: the one request prefix that is
/// answered with the index page.
pub open spec fn index_request_prefix() -> Seq<u8> {
    seq![71u8, 69u8, 84u8, 32u8, 47u8, 32u8, 72u8, 84u8, 84u8, 80u8, 47u8, 49u8, 46u8, 49u8, 13u8, 10u8]
}

/// A request buffer asks for the index page when it begins with
/// `"GET / HTTP/1.1\r\n"`.
pub open spec fn is_index_request_spec(r: Seq<u8>) -> bool {
    r.len() >= 16 && r.take(16) == index_request_prefix()
}

/// The bytes of `"HTTP/1.1 200 OK\r\n"`.
pub open spec fn ok_status() -> Seq<u8> {
    seq![72u8, 84u8, 84u8, 80u8, 47u8, 49u8, 46u8, 49u8, 32u8, 50u8, 48u8, 48u8, 32u8, 79u8, 75u8, 13u8, 10u8]
}

/// The bytes of `"HTTP/1.1 404 NOT FOUND\r\n"`.
pub open spec fn not_found_status() -> Seq<u8> {
    seq![72u8, 84u8, 84u8, 80u8, 47u8, 49u8, 46u8, 49u8, 32u8, 52u8, 48u8, 52u8, 32u8, 78u8, 79u8, 84u8, 32u8, 70u8, 79u8, 85u8, 78u8, 68u8, 13u8, 10u8]
}

/// The status line of a success or not-found response.
pub open spec fn status_line(ok: bool) -> Seq<u8> {
    if ok {
        ok_status()
    } else {
        not_found_status()
    }
}

/// The bytes of `"Content-Length: "`.
pub open spec fn content_length_prefix() -> Seq<u8> {
    seq![67u8, 111u8, 110u8, 116u8, 101u8, 110u8, 116u8, 45u8, 76u8, 101u8, 110u8, 103u8, 116u8, 104u8, 58u8, 32u8]
}

/// The blank line that separates the headers from the body.
pub open spec fn crlf_crlf() -> Seq<u8> {
    seq![13u8, 10u8, 13u8, 10u8]
}

/// The decimal digits of `n`, most significant first, as ASCII bytes.
pub open spec fn dec_rep(n: nat) -> Seq<u8>
    decreases n,
{
    if n < 10 {
        seq![(48 + n) as u8]
    } else {
        dec_rep(n / 10).push((48 + n % 10) as u8)
    }
}

/// The whole response: status line, `Content-Length` header counting
/// the body's bytes, blank line, body.
pub open spec fn response_bytes(ok: bool, body: Seq<u8>) -> Seq<u8> {
    status_line(ok) + content_length_prefix() + dec_rep(body.len()) + crlf_crlf() + body
}

/// What the responder answers: the index body behind a `200 OK` for the
/// one recognized request line, the not-found body behind a `404`
/// otherwise.
pub open spec fn response_for(request: Seq<u8>, index_body: Seq<u8>, not_found_body: Seq<u8>) -> Seq<u8> {
    if is_index_request_spec(request) {
        response_bytes(true, index_body)
    } else {
        response_bytes(false, not_found_body)
    }
}

fn index_prefix_bytes() -> (v: Vec<u8>)
    ensures
        v@ == index_request_prefix(),
{
    let mut v: Vec<u8> = Vec::new();
    v.push(71u8);
    v.push(69u8);
    v.push(84u8);
    v.push(32u8);
    v.push(47u8);
    v.push(32u8);
    v.push(72u8);
    v.push(84u8);
    v.push(84u8);
    v.push(80u8);
    v.push(47u8);
    v.push(49u8);
    v.push(46u8);
    v.push(49u8);
    v.push(13u8);
    v.push(10u8);
    proof {
        assert(v@ =~= index_request_prefix());
    }
    v
}

/// Does this request buffer begin with `"GET / HTTP/1.1\r\n"`?
pub fn is_index_request(request: &[u8]) -> (b: bool)
    ensures
        b == is_index_request_spec(request@),
{
    if request.len() < 16 {
        return false;
    }
    let p = index_prefix_bytes();
    let mut i: usize = 0;
    while i < 16
        invariant
            0 <= i <= 16,
            request@.len() >= 16,
            p@ == index_request_prefix(),
            forall|j: int| 0 <= j < i ==> request@[j] == index_request_prefix()[j],
        decreases 16 - i,
    {
        if *slice_index_get(request, i) != p[i] {
            proof {
                assert(request@.take(16)[i as int] == request@[i as int]);
            }
            return false;
        }
        i += 1;
    }
    proof {
        assert(request@.take(16) =~= index_request_prefix());
    }
    true
}

fn push_ok_status(v: &mut Vec<u8>)
    ensures
        final(v)@ == old(v)@ + ok_status(),
{
    v.push(72u8);
    v.push(84u8);
    v.push(84u8);
    v.push(80u8);
    v.push(47u8);
    v.push(49u8);
    v.push(46u8);
    v.push(49u8);
    v.push(32u8);
    v.push(50u8);
    v.push(48u8);
    v.push(48u8);
    v.push(32u8);
    v.push(79u8);
    v.push(75u8);
    v.push(13u8);
    v.push(10u8);
    proof {
        assert(final(v)@ =~= old(v)@ + ok_status());
    }
}

fn push_not_found_status(v: &mut Vec<u8>)
    ensures
        final(v)@ == old(v)@ + not_found_status(),
{
    v.push(72u8);
    v.push(84u8);
    v.push(84u8);
    v.push(80u8);
    v.push(47u8);
    v.push(49u8);
    v.push(46u8);
    v.push(49u8);
    v.push(32u8);
    v.push(52u8);
    v.push(48u8);
    v.push(52u8);
    v.push(32u8);
    v.push(78u8);
    v.push(79u8);
    v.push(84u8);
    v.push(32u8);
    v.push(70u8);
    v.push(79u8);
    v.push(85u8);
    v.push(78u8);
    v.push(68u8);
    v.push(13u8);
    v.push(10u8);
    proof {
        assert(final(v)@ =~= old(v)@ + not_found_status());
    }
}

fn push_content_length_prefix(v: &mut Vec<u8>)
    ensures
        final(v)@ == old(v)@ + content_length_prefix(),
{
    v.push(67u8);
    v.push(111u8);
    v.push(110u8);
    v.push(116u8);
    v.push(101u8);
    v.push(110u8);
    v.push(116u8);
    v.push(45u8);
    v.push(76u8);
    v.push(101u8);
    v.push(110u8);
    v.push(103u8);
    v.push(116u8);
    v.push(104u8);
    v.push(58u8);
    v.push(32u8);
    proof {
        assert(final(v)@ =~= old(v)@ + content_length_prefix());
    }
}

fn push_decimal(v: &mut Vec<u8>, n: usize)
    ensures
        final(v)@ == old(v)@ + dec_rep(n as nat),
    decreases n,
{
    if n < 10 {
        v.push(48u8 + (n as u8));
        proof {
            assert(final(v)@ =~= old(v)@ + dec_rep(n as nat));
        }
    } else {
        push_decimal(v, n / 10);
        v.push(48u8 + ((n % 10) as u8));
        proof {
            assert(final(v)@ =~= old(v)@ + dec_rep(n as nat));
        }
    }
}

fn push_bytes(v: &mut Vec<u8>, b: &[u8])
    ensures
        final(v)@ == old(v)@ + b@,
{
    let mut i: usize = 0;
    while i < b.len()
        invariant
            0 <= i <= b@.len(),
            v@ == old(v)@ + b@.take(i as int),
        decreases b@.len() - i,
    {
        v.push(*slice_index_get(b, i));
        i += 1;
        proof {
            assert(old(v)@ + b@.take(i as int) =~= (old(v)@ + b@.take(i as int - 1)).push(
                b@[i as int - 1],
            ));
        }
    }
    proof {
        assert(b@.take(b@.len() as int) =~= b@);
    }
}

/// Frames one response: the chosen status line, the `Content-Length`
/// header counting exactly the body's bytes, a blank line, the body.
pub fn build_response(ok: bool, body: &[u8]) -> (r: Vec<u8>)
    ensures
        r@ == response_bytes(ok, body@),
{
    let mut r: Vec<u8> = Vec::new();
    if ok {
        push_ok_status(&mut r);
    } else {
        push_not_found_status(&mut r);
    }
    push_content_length_prefix(&mut r);
    push_decimal(&mut r, body.len());
    r.push(13u8);
    r.push(10u8);
    r.push(13u8);
    r.push(10u8);
    push_bytes(&mut r, body);
    proof {
        assert(r@ =~= response_bytes(ok, body@));
    }
    r
}

/// The compute half of handling one connection: from the request bytes
/// and the two page bodies to the exact response bytes.  The caller
/// reads the request from the wire and writes the result back.
pub fn handle_request(request: &[u8], index_body: &[u8], not_found_body: &[u8]) -> (r: Vec<u8>)
    ensures
        r@ == response_for(request@, index_body@, not_found_body@),
{
    if is_index_request(request) {
        build_response(true, index_body)
    } else {
        build_response(false, not_found_body)
    }
}

/// Every response begins with its status line, so a recognized request
/// is always answered with `"HTTP/1.1 200 OK"` first on the wire.
pub proof fn lemma_response_begins_with_status(ok: bool, body: Seq<u8>)
    ensures
        response_bytes(ok, body).take(status_line(ok).len() as int) == status_line(ok),
{
    assert(response_bytes(ok, body).take(status_line(ok).len() as int) =~= status_line(ok));
}

} // verus!

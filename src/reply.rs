//! The one reply the server gives: status 200, a `Server` header, a
//! `Content-Length` header and the body `Hello World!`.
use vstd::prelude::*;
use vstd::string::is_ascii;

use crate::cli::{all_digits, decimal_value, digits_value, is_digit, unsigned_digits};

verus! {

/// The bytes of an ASCII text, one per character.
pub open spec fn ascii_bytes(s: Seq<char>) -> Seq<u8> {
    s.map_values(|c: char| c as u8)
}

/// Copies the bytes of an ASCII text into a vector.
fn text_bytes(s: &str) -> (r: Vec<u8>)
    requires
        is_ascii(s),
    ensures
        r@ == ascii_bytes(s@),
{
    let b = s.as_bytes();
    proof {
        vstd::utf8::is_ascii_chars_encode_utf8(s@);
    }
    let mut out: Vec<u8> = Vec::new();
    let mut i: usize = 0;
    while i < b.len()
        invariant
            i <= b@.len(),
            b@.len() == s@.len(),
            forall|k: int| 0 <= k < b@.len() ==> #[trigger] b@[k] == s@[k] as u8,
            out@ == ascii_bytes(s@).subrange(0, i as int),
        decreases b@.len() - i,
    {
        out.push(b[i]);
        i = i + 1;
        assert(out@ =~= ascii_bytes(s@).subrange(0, i as int));
    }
    assert(out@ =~= ascii_bytes(s@));
    out
}

/// The body of every reply.
pub open spec fn hello_body() -> Seq<u8> {
    ascii_bytes("Hello World!"@)
}

/// The body of every reply, as bytes.
fn body_bytes() -> (r: Vec<u8>)
    ensures
        r@ == hello_body(),
        r@.len() == 12,
{
    let text = "Hello World!";
    proof {
        reveal_strlit("Hello World!");
    }
    text_bytes(text)
}

/// The decimal digits of `n` as ASCII bytes, most significant first.
pub open spec fn decimal_digits(n: nat) -> Seq<u8>
    decreases n,
{
    if n < 10 {
        seq![(48 + n) as u8]
    } else {
        decimal_digits(n / 10).push((48 + n % 10) as u8)
    }
}

/// Bytes read back as characters, one per byte.
pub open spec fn byte_chars(b: Seq<u8>) -> Seq<char> {
    b.map_values(|x: u8| x as char)
}

/// The text of `decimal_digits(n)` is one or more digits denoting `n`.
proof fn lemma_decimal_digits_denote(n: nat)
    ensures
        byte_chars(decimal_digits(n)).len() > 0,
        all_digits(byte_chars(decimal_digits(n))),
        digits_value(byte_chars(decimal_digits(n))) == n,
    decreases n,
{
    let c = byte_chars(decimal_digits(n));
    let d = ((48 + n % 10) as u8) as char;
    assert(is_digit(d) && (d as u32) - ('0' as u32) == n % 10);
    if n < 10 {
        assert(c =~= seq![d]);
        assert(c.drop_last() =~= Seq::<char>::empty());
        assert(digits_value(c) == digits_value(c.drop_last()) * 10 + n % 10);
    } else {
        lemma_decimal_digits_denote(n / 10);
        let p = byte_chars(decimal_digits(n / 10));
        assert(c =~= p.push(d));
        assert(c.drop_last() =~= p);
        assert(all_digits(c)) by {
            assert forall|i: int| 0 <= i < c.len() implies is_digit(#[trigger] c[i]) by {
                if i < p.len() {
                    assert(c[i] == p[i]);
                }
            }
        }
        assert(digits_value(c) == (n / 10) * 10 + n % 10);
        assert((n / 10) * 10 + n % 10 == n) by (nonlinear_arith);
    }
}

/// Decimal text written by `decimal_digits` reads back, as an unsigned
/// decimal literal, as the number it was written from: a `Content-Length`
/// value gives back the length it states.
pub proof fn lemma_decimal_round_trip(n: nat)
    ensures
        decimal_value(byte_chars(decimal_digits(n))) == Some(n),
{
    lemma_decimal_digits_denote(n);
    let c = byte_chars(decimal_digits(n));
    assert(is_digit(c[0]));
    assert(unsigned_digits(c) == c);
}

/// Appends the decimal digits of `n` to `out`.
fn push_decimal(n: usize, out: &mut Vec<u8>)
    ensures
        final(out)@ == old(out)@ + decimal_digits(n as nat),
    decreases n,
{
    if n >= 10 {
        push_decimal(n / 10, out);
    }
    out.push(48u8 + (n % 10) as u8);
    assert(out@ =~= old(out)@ + decimal_digits(n as nat));
}

/// The decimal text of `n` as ASCII bytes, as a `Content-Length` value is
/// written.
pub fn decimal_bytes(n: usize) -> (r: Vec<u8>)
    ensures
        r@ == decimal_digits(n as nat),
{
    let mut out: Vec<u8> = Vec::new();
    push_decimal(n, &mut out);
    assert(out@ =~= decimal_digits(n as nat));
    out
}

/// An HTTP response: its status code, its header lines in the order they are
/// written (name, value), and its body.
#[derive(Debug, Clone, PartialEq, Eq)]
pub struct Reply {
    pub status: u16,
    pub headers: Vec<(Vec<u8>, Vec<u8>)>,
    pub body: Vec<u8>,
}

/// A response as values: status, header lines, body bytes.
pub struct ReplyView {
    pub status: u16,
    pub headers: Seq<(Seq<u8>, Seq<u8>)>,
    pub body: Seq<u8>,
}

impl View for Reply {
    type V = ReplyView;

    open spec fn view(&self) -> ReplyView {
        ReplyView {
            status: self.status,
            headers: self.headers@.map_values(|h: (Vec<u8>, Vec<u8>)| (h.0@, h.1@)),
            body: self.body@,
        }
    }
}

/// The reply to every request: status 200, `Server: hyper`, a
/// `Content-Length` that gives the body's length in bytes, and the body
/// `Hello World!`.
pub open spec fn hello_reply() -> ReplyView {
    ReplyView {
        status: 200,
        headers: seq![
            (ascii_bytes("Server"@), ascii_bytes("hyper"@)),
            (ascii_bytes("Content-Length"@), decimal_digits(hello_body().len())),
        ],
        body: hello_body(),
    }
}

/// Answers a request. What the request holds (method, target, headers,
/// body) is not consulted: every request gets the same reply.
pub fn respond() -> (r: Reply)
    ensures
        r@ == hello_reply(),
        r@.headers[1].1 == seq![49u8, 50u8],
        r@.body.len() == 12,
{
    let body = body_bytes();
    let server = "Server";
    let name = "hyper";
    let length = "Content-Length";
    proof {
        reveal_strlit("Server");
        reveal_strlit("hyper");
        reveal_strlit("Content-Length");
    }
    let mut headers: Vec<(Vec<u8>, Vec<u8>)> = Vec::new();
    headers.push((text_bytes(server), text_bytes(name)));
    headers.push((text_bytes(length), decimal_bytes(body.len())));
    let r = Reply { status: 200, headers, body };
    proof {
        reveal_with_fuel(decimal_digits, 2);
        assert(decimal_digits(12) =~= seq![49u8, 50u8]);
        assert(r@.headers =~= hello_reply().headers);
    }
    r
}

} // verus!

//! Responses as text: a status line, the length of the body in bytes, a
//! blank line, the body.

use vstd::prelude::*;
use vstd::string::StringExecFns;
use vstd::utf8::encode_utf8;

verus! {

/// The character for the digit `d`, for `d` below ten.
pub open spec fn digit(d: nat) -> char {
    if d == 0 {
        '0'
    } else if d == 1 {
        '1'
    } else if d == 2 {
        '2'
    } else if d == 3 {
        '3'
    } else if d == 4 {
        '4'
    } else if d == 5 {
        '5'
    } else if d == 6 {
        '6'
    } else if d == 7 {
        '7'
    } else if d == 8 {
        '8'
    } else {
        '9'
    }
}

/// The number `n` written in base ten, without leading zeros.
pub open spec fn decimal(n: nat) -> Seq<char>
    decreases n,
{
    if n < 10 {
        seq![digit(n)]
    } else {
        decimal(n / 10).push(digit(n % 10))
    }
}

/// A response: `head`, then the header that gives the length of `body` in
/// bytes, then a blank line, then `body`.
pub open spec fn framed(head: Seq<char>, body: Seq<char>) -> Seq<char> {
    head + "\r\nContent-Length: "@ + decimal(encode_utf8(body).len()) + "\r\n\r\n"@ + body
}

/// The text of a response with status line `status_line` and body `content`.
pub open spec fn response_text(status_line: Seq<char>, content: Seq<char>) -> Seq<char> {
    framed(status_line, content)
}

/// The text of an error response: the status line is the protocol version
/// followed by `status`, and the body is `message`.
pub open spec fn error_text(status: Seq<char>, message: Seq<char>) -> Seq<char> {
    framed("HTTP/1.1 "@ + status, message)
}

fn digit_text(d: usize) -> (s: &'static str)
    requires
        d < 10,
    ensures
        s@ == seq![digit(d as nat)],
{
    proof {
        reveal_strlit("0");
        reveal_strlit("1");
        reveal_strlit("2");
        reveal_strlit("3");
        reveal_strlit("4");
        reveal_strlit("5");
        reveal_strlit("6");
        reveal_strlit("7");
        reveal_strlit("8");
        reveal_strlit("9");
    }
    let s = if d == 0 {
        "0"
    } else if d == 1 {
        "1"
    } else if d == 2 {
        "2"
    } else if d == 3 {
        "3"
    } else if d == 4 {
        "4"
    } else if d == 5 {
        "5"
    } else if d == 6 {
        "6"
    } else if d == 7 {
        "7"
    } else if d == 8 {
        "8"
    } else {
        "9"
    };
    assert(s@ =~= seq![digit(d as nat)]);
    s
}

/// Writes `n` in base ten.
pub fn decimal_string(n: usize) -> (s: String)
    ensures
        s@ == decimal(n as nat),
    decreases n,
{
    if n < 10 {
        digit_text(n).to_owned()
    } else {
        let mut s = decimal_string(n / 10);
        s.append(digit_text(n % 10));
        s
    }
}

fn frame(head: String, body: &str) -> (r: String)
    ensures
        r@ == framed(head@, body@),
{
    let mut r = head;
    r.append("\r\nContent-Length: ");
    r.append(decimal_string(body.as_bytes().len()).as_str());
    r.append("\r\n\r\n");
    r.append(body);
    r
}

/// Builds the response that carries `content` under `status_line`.
pub fn render_response(status_line: &str, content: &str) -> (r: String)
    ensures
        r@ == response_text(status_line@, content@),
{
    frame(status_line.to_owned(), content)
}

/// Builds the error response for `status`, such as `400 Bad Request`, with
/// `message` as its body.
pub fn error_response(status: &str, message: &str) -> (r: String)
    ensures
        r@ == error_text(status@, message@),
{
    let mut head = "HTTP/1.1 ".to_owned();
    head.append(status);
    frame(head, message)
}

} // verus!

//! The request handler's decisions: which route a request line selects, which
//! file supplies the body, which status line is sent, and the exact bytes of
//! the response. Also the per-connection lifecycle, which closes on every
//! path.

use vstd::prelude::*;
use vstd::string::StringExecFns;
use vstd::utf8::encode_utf8;
use crate::text::{all_digits, dec_rep, dec_val, str_eq, u64_to_string};

verus! {

/// How long the slow route suspends its worker, in seconds.
pub const SLEEP_SECS: u64 = 5;

/// The routes the server knows.
#[derive(Clone, Copy, Debug, PartialEq, Eq, Structural)]
pub enum Route {
    /// `GET / HTTP/1.1`: answer 200 with `hello.html`.
    Hello,
    /// `GET /sleep HTTP/1.1`: wait, then answer as for `/`.
    Sleep,
    /// Anything else: answer 404 with `404.html`.
    NotFound,
}

/// Which route a request line selects: one of the two known literals matched
/// exactly, and not-found for every other line.
pub open spec fn spec_route(line: Seq<char>) -> Route {
    if line == "GET / HTTP/1.1"@ {
        Route::Hello
    } else if line == "GET /sleep HTTP/1.1"@ {
        Route::Sleep
    } else {
        Route::NotFound
    }
}

/// Routes one request line.
pub fn route(line: &str) -> (r: Route)
    ensures
        r == spec_route(line@),
{
    if str_eq(line, "GET / HTTP/1.1") {
        Route::Hello
    } else if str_eq(line, "GET /sleep HTTP/1.1") {
        Route::Sleep
    } else {
        Route::NotFound
    }
}

/// The status line a route is answered with.
pub open spec fn spec_status_line(r: Route) -> Seq<char> {
    match r {
        Route::Hello => "HTTP/1.1 200 OK"@,
        Route::Sleep => "HTTP/1.1 200 OK"@,
        Route::NotFound => "HTTP/1.1 404 NOT FOUND"@,
    }
}

/// The status line for a route.
pub fn status_line(r: Route) -> (s: &'static str)
    ensures
        s@ == spec_status_line(r),
{
    match r {
        Route::Hello => "HTTP/1.1 200 OK",
        Route::Sleep => "HTTP/1.1 200 OK",
        Route::NotFound => "HTTP/1.1 404 NOT FOUND",
    }
}

/// The file whose contents make the body for a route.
pub open spec fn spec_filename(r: Route) -> Seq<char> {
    match r {
        Route::Hello => "hello.html"@,
        Route::Sleep => "hello.html"@,
        Route::NotFound => "404.html"@,
    }
}

/// The body file for a route.
pub fn filename(r: Route) -> (s: &'static str)
    ensures
        s@ == spec_filename(r),
{
    match r {
        Route::Hello => "hello.html",
        Route::Sleep => "hello.html",
        Route::NotFound => "404.html",
    }
}

/// Whether a route simulates a slow backend before answering.
pub open spec fn spec_sleeps(r: Route) -> bool {
    r is Sleep
}

/// Whether the worker should pause before answering this route.
pub fn sleeps(r: Route) -> (b: bool)
    ensures
        b == spec_sleeps(r),
{
    match r {
        Route::Sleep => true,
        _ => false,
    }
}

/// The exact response for a status line and body: the status line, a
/// `Content-Length` header holding the body's byte length in decimal, a blank
/// line, then the body verbatim. No other headers.
pub open spec fn spec_response(status: Seq<char>, body: Seq<char>) -> Seq<char> {
    status + "\r\nContent-Length: "@ + dec_rep(encode_utf8(body).len()) + "\r\n\r\n"@ + body
}

/// Serializes the response for a status line and body.
pub fn build_response(status: &str, body: &str) -> (r: String)
    ensures
        r@ == spec_response(status@, body@),
{
    let len = body.as_bytes().len();
    proof {
        assert(len == encode_utf8(body@).len());
    }
    let r = String::from_str(status).concat("\r\nContent-Length: ").concat(
        u64_to_string(len as u64).as_str(),
    ).concat("\r\n\r\n").concat(body);
    proof {
        assert(r@ =~= spec_response(status@, body@));
    }
    r
}

/// A response starts with its status line, ends with the body verbatim, and
/// the digits of its `Content-Length` header denote exactly the body's byte
/// length: what a client receives is the file's contents, declared correctly.
pub proof fn lemma_response_carries_body(status: Seq<char>, body: Seq<char>)
    ensures
        spec_response(status, body).subrange(0, status.len() as int) == status,
        spec_response(status, body).subrange(
            spec_response(status, body).len() - body.len(),
            spec_response(status, body).len() as int,
        ) == body,
        all_digits(dec_rep(encode_utf8(body).len())),
        dec_val(dec_rep(encode_utf8(body).len())) == encode_utf8(body).len(),
{
    crate::text::lemma_dec_rep_round_trip(encode_utf8(body).len());
    let r = spec_response(status, body);
    assert(r.subrange(0, status.len() as int) =~= status);
    assert(r.subrange(r.len() - body.len(), r.len() as int) =~= body);
}

/// Any request line other than the two known literals is routed to not-found
/// and answered 404 from `404.html`.
pub proof fn lemma_unknown_line_is_not_found(line: Seq<char>)
    requires
        line != "GET / HTTP/1.1"@,
        line != "GET /sleep HTTP/1.1"@,
    ensures
        spec_route(line) is NotFound,
        spec_status_line(spec_route(line)) == "HTTP/1.1 404 NOT FOUND"@,
        spec_filename(spec_route(line)) == "404.html"@,
{
}

/// The two known request lines are answered 200 from `hello.html`; the slow
/// route differs from `/` only in the pause, not in the response.
pub proof fn lemma_known_lines_are_ok(line: Seq<char>)
    requires
        line == "GET / HTTP/1.1"@ || line == "GET /sleep HTTP/1.1"@,
    ensures
        spec_status_line(spec_route(line)) == "HTTP/1.1 200 OK"@,
        spec_filename(spec_route(line)) == "hello.html"@,
        spec_sleeps(spec_route(line)) == (line == "GET /sleep HTTP/1.1"@),
{
    reveal_strlit("GET / HTTP/1.1");
    reveal_strlit("GET /sleep HTTP/1.1");
    assert("GET / HTTP/1.1"@.len() == 14);
    assert("GET /sleep HTTP/1.1"@.len() == 19);
}

/// The stages one connection goes through while a worker handles it.
#[derive(Clone, Copy, Debug, PartialEq, Eq, Structural)]
pub enum ConnState {
    /// The acceptor has handed the connection to a worker.
    Accepted,
    /// The worker is reading the request line.
    ReadingRequestLine,
    /// The request line was routed.
    Routed,
    /// The worker is reading the body file.
    ReadingFile,
    /// The worker is writing the response.
    WritingResponse,
    /// The connection is closed; nothing follows.
    Closed,
}

/// The next stage of a connection: the following stage when the current one
/// succeeded, `Closed` on any per-connection failure.
pub open spec fn spec_advance(s: ConnState, ok: bool) -> ConnState {
    if !ok {
        ConnState::Closed
    } else {
        match s {
            ConnState::Accepted => ConnState::ReadingRequestLine,
            ConnState::ReadingRequestLine => ConnState::Routed,
            ConnState::Routed => ConnState::ReadingFile,
            ConnState::ReadingFile => ConnState::WritingResponse,
            ConnState::WritingResponse => ConnState::Closed,
            ConnState::Closed => ConnState::Closed,
        }
    }
}

/// Advances a connection by one stage.
pub fn advance(s: ConnState, ok: bool) -> (r: ConnState)
    ensures
        r == spec_advance(s, ok),
{
    if !ok {
        ConnState::Closed
    } else {
        match s {
            ConnState::Accepted => ConnState::ReadingRequestLine,
            ConnState::ReadingRequestLine => ConnState::Routed,
            ConnState::Routed => ConnState::ReadingFile,
            ConnState::ReadingFile => ConnState::WritingResponse,
            ConnState::WritingResponse => ConnState::Closed,
            ConnState::Closed => ConnState::Closed,
        }
    }
}

/// A failure in any stage closes the connection at once: there is no retry
/// and no stage after an error.
pub proof fn lemma_failure_closes(s: ConnState)
    ensures
        spec_advance(s, false) is Closed,
{
}

/// Whatever succeeds or fails along the way, a connection is closed after at
/// most five stages, so every exit path ends with the connection closed.
pub proof fn lemma_connection_always_closes(a: bool, b: bool, c: bool, d: bool, e: bool)
    ensures
        spec_advance(
            spec_advance(
                spec_advance(spec_advance(spec_advance(ConnState::Accepted, a), b), c),
                d,
            ),
            e,
        ) is Closed,
{
}

} // verus!

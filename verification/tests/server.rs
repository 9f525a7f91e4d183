use hello_server::config::Config;
use hello_server::config::default_host;
use hello_server::config::default_pool_size;
use hello_server::config::default_port;
use hello_server::http::ConnState;
use hello_server::http::Route;
use hello_server::http::SLEEP_SECS;
use hello_server::http::advance;
use hello_server::http::build_response;
use hello_server::http::filename;
use hello_server::http::route;
use hello_server::http::sleeps;
use hello_server::http::status_line;
use hello_server::pool::Pool;
use hello_server::text::parse_u64;
use hello_server::text::str_eq;
use hello_server::text::u64_to_string;

#[test]
fn defaults_are_the_documented_ones() {
    assert_eq!(default_port(), 1337);
    assert_eq!(default_host(), "0.0.0.0");
    assert_eq!(default_pool_size(), 4);
}

#[test]
fn config_defaults_when_unset() {
    let c = Config::from_env_values(None, None, None);
    assert_eq!(c.host(), "0.0.0.0");
    assert_eq!(c.port(), 1337);
    assert_eq!(c.pool_size(), 4);
    assert_eq!(c.addr(), "0.0.0.0:1337");
}

#[test]
fn config_defaults_when_unparsable() {
    let c = Config::from_env_values(
        None,
        Some(String::from("not-a-number")),
        Some(String::from("-3")),
    );
    assert_eq!(c.port(), 1337);
    assert_eq!(c.pool_size(), 4);
    assert_eq!(c.addr(), "0.0.0.0:1337");
}

#[test]
fn config_port_out_of_range_falls_back() {
    let c = Config::from_env_values(None, Some(String::from("70000")), None);
    assert_eq!(c.port(), 1337);
}

#[test]
fn config_pool_size_zero_falls_back() {
    let c = Config::from_env_values(None, None, Some(String::from("0")));
    assert_eq!(c.pool_size(), 4);
}

#[test]
fn config_set_values_are_used() {
    let c = Config::from_env_values(
        Some(String::from("127.0.0.1")),
        Some(String::from("8080")),
        Some(String::from("2")),
    );
    assert_eq!(c.host(), "127.0.0.1");
    assert_eq!(c.port(), 8080);
    assert_eq!(c.pool_size(), 2);
    assert_eq!(c.addr(), "127.0.0.1:8080");
}

#[test]
fn banner_lines_are_exact() {
    let c = Config::from_env_values(None, None, None);
    assert_eq!(c.startup_banner(), "Listening on 0.0.0.0:1337, pool size: 4");
    assert_eq!(c.browser_hint(), "Click http://0.0.0.0:1337/ to open it in the browser");
}

#[test]
fn numerals_render_exactly() {
    assert_eq!(u64_to_string(0), "0");
    assert_eq!(u64_to_string(7), "7");
    assert_eq!(u64_to_string(1337), "1337");
    assert_eq!(u64_to_string(u64::MAX), "18446744073709551615");
}

#[test]
fn numerals_parse_exactly() {
    assert_eq!(parse_u64("0"), Some(0));
    assert_eq!(parse_u64("1337"), Some(1337));
    assert_eq!(parse_u64("18446744073709551615"), Some(u64::MAX));
    assert_eq!(parse_u64("18446744073709551616"), None);
    assert_eq!(parse_u64(""), None);
    assert_eq!(parse_u64("12a"), None);
    assert_eq!(parse_u64(" 12"), None);
    assert_eq!(parse_u64("-1"), None);
}

#[test]
fn numerals_round_trip() {
    for n in [0u64, 1, 9, 10, 99, 100, 123456789, u64::MAX] {
        assert_eq!(parse_u64(u64_to_string(n).as_str()), Some(n));
    }
}

#[test]
fn str_eq_compares_contents() {
    assert!(str_eq("", ""));
    assert!(str_eq("GET / HTTP/1.1", "GET / HTTP/1.1"));
    assert!(!str_eq("GET / HTTP/1.1", "GET / HTTP/1.0"));
    assert!(!str_eq("abc", "ab"));
}

#[test]
fn known_lines_route_to_ok() {
    assert_eq!(route("GET / HTTP/1.1"), Route::Hello);
    assert_eq!(route("GET /sleep HTTP/1.1"), Route::Sleep);
    assert_eq!(status_line(Route::Hello), "HTTP/1.1 200 OK");
    assert_eq!(status_line(Route::Sleep), "HTTP/1.1 200 OK");
    assert_eq!(filename(Route::Hello), "hello.html");
    assert_eq!(filename(Route::Sleep), "hello.html");
}

#[test]
fn unknown_lines_route_to_not_found() {
    for line in ["GET /missing HTTP/1.1", "POST / HTTP/1.1", "", "GET", "GET / HTTP/1.0",
        "get / http/1.1", "GET /  HTTP/1.1"] {
        assert_eq!(route(line), Route::NotFound);
    }
    assert_eq!(status_line(Route::NotFound), "HTTP/1.1 404 NOT FOUND");
    assert_eq!(filename(Route::NotFound), "404.html");
}

#[test]
fn only_the_sleep_route_sleeps() {
    assert!(sleeps(Route::Sleep));
    assert!(!sleeps(Route::Hello));
    assert!(!sleeps(Route::NotFound));
    assert_eq!(SLEEP_SECS, 5);
}

#[test]
fn response_bytes_are_exact() {
    let r = build_response("HTTP/1.1 200 OK", "hello");
    assert_eq!(r, "HTTP/1.1 200 OK\r\nContent-Length: 5\r\n\r\nhello");
}

#[test]
fn response_with_empty_body() {
    let r = build_response("HTTP/1.1 404 NOT FOUND", "");
    assert_eq!(r, "HTTP/1.1 404 NOT FOUND\r\nContent-Length: 0\r\n\r\n");
}

#[test]
fn content_length_counts_bytes_not_chars() {
    let body = "h\u{e9}llo";
    assert_eq!(body.chars().count(), 5);
    assert_eq!(body.len(), 6);
    let r = build_response("HTTP/1.1 200 OK", body);
    assert_eq!(r, "HTTP/1.1 200 OK\r\nContent-Length: 6\r\n\r\nh\u{e9}llo");
}

#[test]
fn a_failure_in_any_stage_closes_the_connection() {
    for s in [ConnState::Accepted, ConnState::ReadingRequestLine, ConnState::Routed,
        ConnState::ReadingFile, ConnState::WritingResponse, ConnState::Closed] {
        assert_eq!(advance(s, false), ConnState::Closed);
    }
}

#[test]
fn a_connection_walks_its_stages_and_closes() {
    let mut s = ConnState::Accepted;
    s = advance(s, true);
    assert_eq!(s, ConnState::ReadingRequestLine);
    s = advance(s, true);
    assert_eq!(s, ConnState::Routed);
    s = advance(s, true);
    assert_eq!(s, ConnState::ReadingFile);
    s = advance(s, true);
    assert_eq!(s, ConnState::WritingResponse);
    s = advance(s, true);
    assert_eq!(s, ConnState::Closed);
}

#[test]
fn a_malformed_request_does_not_affect_the_next_one() {
    // The handler holds no state across connections: after routing garbage,
    // a fresh request still routes normally.
    assert_eq!(route("\u{0}garbage"), Route::NotFound);
    assert_eq!(route("GET / HTTP/1.1"), Route::Hello);
}

#[test]
fn pool_dispatches_fifo_to_idle_workers() {
    let mut p = Pool::new(2);
    let t0 = p.submit();
    let t1 = p.submit();
    assert_ne!(t0, t1);
    let first = p.dispatch().unwrap();
    assert_eq!(first.1, t0);
    let second = p.dispatch().unwrap();
    assert_eq!(second.1, t1);
    assert_ne!(first.0, second.0);
    assert_eq!(p.dispatch(), None);
    assert_eq!(p.busy_count(), 2);
    assert_eq!(p.complete(first.0), t0);
    assert_eq!(p.busy_count(), 1);
}

#[test]
fn single_worker_queues_work_behind_a_slow_request() {
    let mut p = Pool::new(1);
    let slow = p.submit();
    let fast = p.submit();
    let (w, t) = p.dispatch().unwrap();
    assert_eq!(t, slow);
    // While the only worker is on the slow request, the fast one waits.
    assert_eq!(p.dispatch(), None);
    assert_eq!(p.complete(w), slow);
    let (_, t2) = p.dispatch().unwrap();
    assert_eq!(t2, fast);
}

#[test]
fn spare_worker_takes_work_during_a_slow_request() {
    let mut p = Pool::new(2);
    let slow = p.submit();
    let (w_slow, t_slow) = p.dispatch().unwrap();
    assert_eq!(t_slow, slow);
    let fast = p.submit();
    // The slow request is still running, yet the fast one is dispatched.
    let (w_fast, t_fast) = p.dispatch().unwrap();
    assert_eq!(t_fast, fast);
    assert_ne!(w_fast, w_slow);
    // The fast request may finish before the slow one does.
    assert_eq!(p.complete(w_fast), fast);
    assert_eq!(p.busy_count(), 1);
    assert_eq!(p.complete(w_slow), slow);
    assert_eq!(p.busy_count(), 0);
}

#[test]
fn each_client_is_answered_once_per_submission() {
    // Three clients, three tickets, three dispatches, three completions:
    // every ticket comes out exactly once.
    let mut p = Pool::new(4);
    let tickets = [p.submit(), p.submit(), p.submit()];
    let mut served = Vec::new();
    while let Some((w, t)) = p.dispatch() {
        served.push((w, t));
    }
    assert_eq!(served.len(), 3);
    for (i, &(_, t)) in served.iter().enumerate() {
        assert_eq!(t, tickets[i]);
    }
    for &(w, t) in served.iter() {
        assert_eq!(p.complete(w), t);
    }
    assert_eq!(p.busy_count(), 0);
    assert_eq!(p.dispatch(), None);
}

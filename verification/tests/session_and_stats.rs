use pluto::stats::summarize;
use pluto::HttpMethod;
use pluto::PingMethod;
use pluto::Pluto;
use pluto::TcpFrame;

fn frame(elapsed: u64, send_success: bool, success: bool) -> TcpFrame {
    TcpFrame { elapsed, send_success, success, ..Default::default() }
}

#[test]
fn loss_and_success_split_total() {
    let frames = vec![
        frame(10, true, true),
        frame(20, true, false),
        frame(30, true, true),
        frame(40, false, false),
        frame(50, true, false),
    ];
    let r = summarize(&frames);
    assert_eq!(r.total, 4);
    assert_eq!(r.success, 2);
    assert_eq!(r.loss, 2);
    assert_eq!(r.loss + r.success, r.total);
}

#[test]
fn empty_history_is_all_zero() {
    let r = summarize(&Vec::new());
    assert_eq!(r.total, 0);
    assert_eq!(r.success, 0);
    assert_eq!(r.loss, 0);
    assert_eq!(r.minimum, 0);
    assert_eq!(r.maximum, 0);
    assert_eq!(r.average, 0);
}

#[test]
fn unsent_frames_leave_all_zero() {
    let frames = vec![frame(10, false, false), frame(20, false, false)];
    let r = summarize(&frames);
    assert_eq!(r.total, 0);
    assert_eq!(r.average, 0);
    assert_eq!(r.minimum, 0);
    assert_eq!(r.maximum, 0);
}

#[test]
fn extremes_enclose_every_success() {
    let frames = vec![
        frame(500, true, true),
        frame(100, true, true),
        frame(900, true, true),
        frame(5, true, false),
        frame(9_000, false, false),
    ];
    let r = summarize(&frames);
    assert_eq!(r.minimum, 100);
    assert_eq!(r.maximum, 900);
    assert!(r.minimum <= 100 && 900 <= r.maximum);
}

#[test]
fn equal_elapsed_ties_keep_extremes() {
    let frames = vec![frame(250, true, true), frame(250, true, true)];
    let r = summarize(&frames);
    assert_eq!(r.minimum, 250);
    assert_eq!(r.maximum, 250);
    assert_eq!(r.average, 250);
}

#[test]
fn average_divides_success_sum_by_total() {
    // Two sent frames, one successful with elapsed 10: average is 10 / 2.
    let frames = vec![frame(10, true, true), frame(30, true, false)];
    let r = summarize(&frames);
    assert_eq!(r.total, 2);
    assert_eq!(r.average, 5);
}

#[test]
fn summarize_twice_is_identical() {
    let frames = vec![
        frame(10, true, true),
        frame(20, true, false),
        frame(0, false, false),
    ];
    let first = summarize(&frames);
    let second = summarize(&frames);
    assert_eq!(first, second);
}

#[test]
fn end_twice_is_identical() {
    let mut p = Pluto::default();
    p.begin_attempt(0);
    p.mark_sent();
    p.complete_attempt(700);
    p.end(1_000);
    let first = p.result;
    let elapsed = p.elapsed;
    p.end(1_000);
    assert_eq!(p.result, first);
    assert_eq!(p.elapsed, elapsed);
}

#[test]
fn attempts_are_recorded_in_order() {
    let mut p = Pluto::default();
    let starts: [u64; 3] = [100, 2_100, 4_100];
    for (n, start) in starts.iter().enumerate() {
        p.begin_attempt(*start);
        p.mark_sent();
        p.complete_attempt(*start + 50);
        assert_eq!(p.queue.len(), n + 1);
    }
    for (i, f) in p.queue.iter().enumerate() {
        assert_eq!(f.id, i + 1);
        assert_eq!(f.start, starts[i]);
        assert_eq!(f.elapsed, 50);
        assert!(f.success && f.send_success);
    }
}

#[test]
fn four_successful_attempts_summarize_clean() {
    let mut p = Pluto::default();
    let mut now: u64 = 0;
    for _ in 0..4 {
        p.begin_attempt(now);
        p.mark_sent();
        p.complete_attempt(now + 1_000_000);
        now += 500_000_000;
    }
    p.end(now);
    assert_eq!(p.result.total, 4);
    assert_eq!(p.result.success, 4);
    assert_eq!(p.result.loss, 0);
    assert_eq!(p.result.minimum, 1_000_000);
    assert_eq!(p.result.maximum, 1_000_000);
    assert_eq!(p.result.average, 1_000_000);
}

#[test]
fn failed_attempts_count_no_success() {
    // Four attempts whose connections never opened: the frames stay unsent.
    let mut p = Pluto::default();
    for n in 0..4u64 {
        p.begin_attempt(n * 500_000_000);
    }
    p.end(2_000_000_000);
    assert_eq!(p.queue.len(), 4);
    assert_eq!(p.result.success, 0);
    assert_eq!(p.result.average, 0);
}

#[test]
fn send_without_wait_completes() {
    // An HTTP attempt with wait disabled reaches success right after the
    // request is written.
    let mut p = Pluto::build(PingMethod::Http, String::from("localhost"), 80);
    p.begin_attempt(10);
    p.mark_sent();
    p.complete_attempt(30);
    let f = &p.queue[0];
    assert!(f.send_success);
    assert!(f.success);
    assert_eq!(f.elapsed, 20);
}

#[test]
fn build_folds_port_into_host() {
    let p = Pluto::build(PingMethod::Tcp, String::from("example.com"), 8080);
    assert_eq!(p.host, "example.com:8080");
    assert_eq!(p.port, 8080);
    assert_eq!(p.method, PingMethod::Tcp);
}

#[test]
fn session_defaults() {
    let p = Pluto::default();
    assert_eq!(p.port, 80);
    assert_eq!(p.bytes, 56);
    assert_eq!(p.wait_timeout, 300);
    assert!(!p.wait);
    assert!(!p.timeout);
    assert!(p.queue.is_empty());
    assert!(matches!(p.http_method, HttpMethod::GET));
    assert_eq!(p.result.total, 0);
}

#[test]
fn end_measures_session_elapsed() {
    let mut p = Pluto::default();
    p.start = 2_000;
    p.end(5_500);
    assert_eq!(p.elapsed, 3_500);
}

#[test]
fn http_request_head_exact() {
    let mut p = Pluto::build(PingMethod::Http, String::from("example.com"), 8080);
    p.bytes = 56;
    let head = p.http_request_head();
    assert_eq!(
        head,
        "GET / HTTP/1.1\r\nHost: example.com:8080\r\nUser-Agent: Pluto/0.1.0\r\nContent-Type: text/plain\r\nContent-Length: 56\r\n\r\n"
    );
}

#[test]
fn http_request_head_follows_verb_and_size() {
    let mut p = Pluto::build(PingMethod::Http, String::from("h"), 80);
    p.http_method = pluto::HttpMethod::DELETE;
    p.bytes = 0;
    let head = p.http_request_head();
    assert!(head.starts_with("DELETE / HTTP/1.1\r\n"));
    assert!(head.contains("Content-Length: 0\r\n"));
    assert!(head.ends_with("\r\n\r\n"));
}

#[test]
fn payload_is_fill_octets() {
    let mut p = Pluto::default();
    p.bytes = 56;
    let data = p.payload();
    assert_eq!(data.len(), 56);
    assert!(data.iter().all(|b| *b == 255));
    p.bytes = 0;
    assert!(p.payload().is_empty());
}

#[test]
fn keep_sending_honours_count_and_unbounded() {
    let mut p = Pluto::default();
    assert!(p.keep_sending(0, 4));
    assert!(p.keep_sending(3, 4));
    assert!(!p.keep_sending(4, 4));
    p.timeout = true;
    assert!(p.keep_sending(4, 4));
}

#[test]
fn response_read_stops_at_short_line() {
    // The reader takes the first line shorter than 3 octets for the blank
    // line that terminates a response head.
    assert!(pluto::session::response_terminated(0));
    assert!(pluto::session::response_terminated(2));
    assert!(!pluto::session::response_terminated(3));
    assert!(!pluto::session::response_terminated(70));
}

use pluto::error::PlutoError;
use pluto::HttpMethod;
use pluto::PingMethod;
use pluto::TcpFrame;

#[test]
fn serialize_method() {
    let tcp = PingMethod::from("tcp");
    assert_eq!(tcp, PingMethod::Tcp);
    let http = PingMethod::from("http");
    assert_eq!(http, PingMethod::Http);
    let other = PingMethod::from("rua");
    assert_eq!(other, PingMethod::Http);
}

#[test]
fn cmp_frame() {
    let lager = TcpFrame { elapsed: 120_000, success: true, ..Default::default() };
    let samller = TcpFrame { elapsed: 100_000, success: true, ..Default::default() };
    assert!(lager > samller);
}

#[test]
fn method_from_is_case_insensitive() {
    assert_eq!(PingMethod::from("TCP"), PingMethod::Tcp);
    assert_eq!(PingMethod::from("Tcp"), PingMethod::Tcp);
    assert_eq!(PingMethod::from("HTTP"), PingMethod::Http);
    assert_eq!(PingMethod::from(""), PingMethod::Http);
}

#[test]
fn method_defaults() {
    assert_eq!(PingMethod::default(), PingMethod::Tcp);
    assert!(matches!(HttpMethod::default(), HttpMethod::GET));
}

#[test]
fn http_method_names() {
    assert_eq!(HttpMethod::GET.as_str(), "GET");
    assert_eq!(HttpMethod::HEAD.as_str(), "HEAD");
    assert_eq!(HttpMethod::POST.as_str(), "POST");
    assert_eq!(HttpMethod::PUT.as_str(), "PUT");
    assert_eq!(HttpMethod::DELETE.as_str(), "DELETE");
    assert_eq!(HttpMethod::CONNECT.as_str(), "CONNECT");
    assert_eq!(HttpMethod::OPTIONS.as_str(), "OPTIONS");
    assert_eq!(HttpMethod::TRACE.as_str(), "TRACE");
    assert_eq!(HttpMethod::PATCH.as_str(), "PATCH");
}

#[test]
fn frame_default_is_blank() {
    let f = TcpFrame::default();
    assert_eq!(f.id, 0);
    assert_eq!(f.start, 0);
    assert_eq!(f.elapsed, 0);
    assert!(!f.success);
    assert!(!f.send_success);
}

#[test]
fn frame_calculate_delay() {
    let mut f = TcpFrame { start: 1_500, ..Default::default() };
    f.calculate_delay(4_000);
    assert_eq!(f.elapsed, 2_500);
    assert_eq!(f.start, 1_500);
}

#[test]
fn frames_order_by_elapsed_alone() {
    let a = TcpFrame { id: 7, start: 99, elapsed: 300, ..Default::default() };
    let b = TcpFrame { id: 1, start: 0, elapsed: 300, success: true, ..Default::default() };
    let c = TcpFrame { elapsed: 301, ..Default::default() };
    assert!(a == b);
    assert!(a <= b);
    assert!(a >= b);
    assert!(a < c);
    assert!(c > b);
    assert!(a != c);
}

#[test]
fn error_messages() {
    assert_eq!(
        PlutoError::ArgsError("no host").message(),
        "wrong arguments no host"
    );
    assert_eq!(
        PlutoError::CmpError("left").message(),
        "failed compare frames left"
    );
    assert_eq!(
        PlutoError::CommonError(String::from("access frame 3 failed")).message(),
        "failed to get target value access frame 3 failed"
    );
}

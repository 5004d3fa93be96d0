use rustbook::http::decimal_digits;
use rustbook::http::response;
use rustbook::http::route;
use rustbook::http::Route;

#[test]
fn front_page_request() {
    let r = route(b"GET / HTTP/1.1\r\nHost: x\r\n\r\n");
    assert_eq!(r, Route::Index);
    assert_eq!(r.status_line(), "HTTP/1.1 200 OK");
    assert_eq!(r.page(), "hello.html");
    assert!(!r.pauses());
}

#[test]
fn slow_page_request() {
    let r = route(b"GET /sleep HTTP/1.1\r\n");
    assert_eq!(r, Route::Sleep);
    assert_eq!(r.status_line(), "HTTP/1.1 200 OK");
    assert_eq!(r.page(), "hello.html");
    assert!(r.pauses());
}

#[test]
fn other_requests_are_not_found() {
    for req in [&b"GET /other HTTP/1.1\r\n"[..], b"", b"GET / HTTP/1.1", b"POST / HTTP/1.1\r\n"] {
        let r = route(req);
        assert_eq!(r, Route::NotFound);
        assert_eq!(r.status_line(), "HTTP/1.1 404 NOT FOUND");
        assert_eq!(r.page(), "404.html");
        assert!(!r.pauses());
    }
}

#[test]
fn zero_padded_buffer_routes_by_prefix() {
    let mut buf = [0u8; 1024];
    let line = b"GET /sleep HTTP/1.1\r\n";
    buf[..line.len()].copy_from_slice(line);
    assert_eq!(route(&buf), Route::Sleep);
}

#[test]
fn decimal_digits_of_numbers() {
    assert_eq!(decimal_digits(0), b"0".to_vec());
    assert_eq!(decimal_digits(7), b"7".to_vec());
    assert_eq!(decimal_digits(10), b"10".to_vec());
    assert_eq!(decimal_digits(1024), b"1024".to_vec());
    assert_eq!(decimal_digits(usize::MAX), usize::MAX.to_string().into_bytes());
}

#[test]
fn response_frames_body() {
    let r = response("HTTP/1.1 200 OK", "<p>hi</p>");
    assert_eq!(r, b"HTTP/1.1 200 OK\r\nContent-Length: 9\r\n\r\n<p>hi</p>".to_vec());
}

#[test]
fn response_counts_bytes_not_chars() {
    let r = response("HTTP/1.1 404 NOT FOUND", "é");
    assert_eq!(r, "HTTP/1.1 404 NOT FOUND\r\nContent-Length: 2\r\n\r\né".as_bytes().to_vec());
    let empty = response("HTTP/1.1 200 OK", "");
    assert_eq!(empty, b"HTTP/1.1 200 OK\r\nContent-Length: 0\r\n\r\n".to_vec());
}

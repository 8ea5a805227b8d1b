use localserve::request::{copy_range, find_byte, parse_request, sanitize_target, Request};

fn head(text: &str) -> Vec<u8> {
    text.as_bytes().to_vec()
}

#[test]
fn parse_get_request() {
    let r = parse_request(&head("GET /index.html HTTP/1.1\r\nHost: x\r\n\r\n"));
    match r {
        Request::Get { target } => assert_eq!(target, head("/index.html")),
        _ => panic!("expected a GET"),
    }
}

#[test]
fn parse_head_request() {
    let r = parse_request(&head("HEAD / HTTP/1.1\r\n\r\n"));
    match r {
        Request::Head { target } => assert_eq!(target, head("/")),
        _ => panic!("expected a HEAD"),
    }
}

#[test]
fn parse_older_protocol_version() {
    let r = parse_request(&head("GET /a HTTP/1.0\r\n"));
    match r {
        Request::Get { target } => assert_eq!(target, head("/a")),
        _ => panic!("expected a GET"),
    }
}

#[test]
fn parse_unsupported_method() {
    let r = parse_request(&head("POST /submit HTTP/1.1\r\nHost: x\r\n"));
    assert!(matches!(r, Request::Unsupported));
    let r = parse_request(&head("DELETE /x HTTP/1.1\r\n"));
    assert!(matches!(r, Request::Unsupported));
}

#[test]
fn parse_malformed_requests() {
    assert!(matches!(parse_request(&head("")), Request::Malformed));
    assert!(matches!(parse_request(&head("GET /x HTTP/1.1")), Request::Malformed));
    assert!(matches!(parse_request(&head("GET /x HTTP/1.1\n")), Request::Malformed));
    assert!(matches!(parse_request(&head("GET\r\n")), Request::Malformed));
    assert!(matches!(parse_request(&head("GET /x\r\n")), Request::Malformed));
    assert!(matches!(parse_request(&head("GET /x FTP/1.1\r\n")), Request::Malformed));
    assert!(matches!(parse_request(&head("\r\n")), Request::Malformed));
}

#[test]
fn find_byte_reports_the_first_occurrence() {
    let v = head("abcabc");
    assert_eq!(find_byte(&v, 0, b'b'), Some(1));
    assert_eq!(find_byte(&v, 2, b'b'), Some(4));
    assert_eq!(find_byte(&v, 0, b'z'), None);
    assert_eq!(find_byte(&v, 6, b'a'), None);
}

#[test]
fn copy_range_takes_the_half_open_slice() {
    let v = head("abcdef");
    assert_eq!(copy_range(&v, 1, 4), head("bcd"));
    assert_eq!(copy_range(&v, 0, 0), head(""));
    assert_eq!(copy_range(&v, 6, 6), head(""));
}

#[test]
fn sanitize_keeps_a_plain_file_path() {
    assert_eq!(sanitize_target(&head("/index.html")), Some(head("index.html")));
    assert_eq!(sanitize_target(&head("/css/site.css")), Some(head("css/site.css")));
}

#[test]
fn sanitize_falls_back_to_the_directory_index() {
    assert_eq!(sanitize_target(&head("/")), Some(head("index.html")));
}

#[test]
fn sanitize_refuses_traversal() {
    assert_eq!(sanitize_target(&head("/../etc/passwd")), None);
    assert_eq!(sanitize_target(&head("/a/../b")), None);
    assert_eq!(sanitize_target(&head("/a..b")), None);
}

#[test]
fn sanitize_refuses_non_absolute_and_double_slash_targets() {
    assert_eq!(sanitize_target(&head("")), None);
    assert_eq!(sanitize_target(&head("index.html")), None);
    assert_eq!(sanitize_target(&head("//etc/passwd")), None);
}

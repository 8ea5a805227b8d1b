use localserve::request::Request;
use localserve::response::{
    encode_response, respond, status_code, FileOutcome, HttpResponse, Status,
};

fn bytes(text: &str) -> Vec<u8> {
    text.as_bytes().to_vec()
}

#[test]
fn get_of_an_existing_file_is_200_with_its_bytes() {
    let req = Request::Get { target: bytes("/index.html") };
    let r = respond(&req, FileOutcome::Found { bytes: bytes("hello") });
    assert_eq!(r.status, Status::Success);
    assert_eq!(r.body, bytes("hello"));
    assert!(r.include_body);
}

#[test]
fn get_of_a_missing_file_is_404() {
    let req = Request::Get { target: bytes("/nope") };
    let r = respond(&req, FileOutcome::Missing);
    assert_eq!(r.status, Status::NotFound);
    assert_eq!(r.body, bytes(""));
}

#[test]
fn get_with_a_failed_read_is_500() {
    let req = Request::Get { target: bytes("/broken") };
    let r = respond(&req, FileOutcome::ReadError);
    assert_eq!(r.status, Status::InternalError);
}

#[test]
fn head_counts_the_bytes_but_sends_none() {
    let req = Request::Head { target: bytes("/index.html") };
    let r = respond(&req, FileOutcome::Found { bytes: bytes("hello") });
    assert_eq!(r.status, Status::Success);
    assert_eq!(r.body, bytes("hello"));
    assert!(!r.include_body);
    let out = encode_response(&r);
    assert_eq!(out, bytes("HTTP/1.1 200 OK\r\nContent-Length: 5\r\n\r\n"));
}

#[test]
fn unsupported_method_is_405() {
    let r = respond(&Request::Unsupported, FileOutcome::Missing);
    assert_eq!(r.status, Status::MethodNotAllowed);
}

#[test]
fn malformed_request_is_400() {
    let r = respond(&Request::Malformed, FileOutcome::Missing);
    assert_eq!(r.status, Status::BadRequest);
}

#[test]
fn encode_lays_out_status_line_headers_and_body() {
    let r = HttpResponse { status: Status::Success, body: bytes("hello"), include_body: true };
    let out = encode_response(&r);
    assert_eq!(out, bytes("HTTP/1.1 200 OK\r\nContent-Length: 5\r\n\r\nhello"));
}

#[test]
fn encode_renders_each_error_status() {
    let r = HttpResponse { status: Status::NotFound, body: bytes(""), include_body: true };
    assert_eq!(
        encode_response(&r),
        bytes("HTTP/1.1 404 Not Found\r\nContent-Length: 0\r\n\r\n")
    );
    let r = HttpResponse { status: Status::MethodNotAllowed, body: bytes(""), include_body: true };
    assert_eq!(
        encode_response(&r),
        bytes("HTTP/1.1 405 Method Not Allowed\r\nContent-Length: 0\r\n\r\n")
    );
    let r = HttpResponse { status: Status::BadRequest, body: bytes(""), include_body: true };
    assert_eq!(
        encode_response(&r),
        bytes("HTTP/1.1 400 Bad Request\r\nContent-Length: 0\r\n\r\n")
    );
    let r = HttpResponse { status: Status::InternalError, body: bytes(""), include_body: true };
    assert_eq!(
        encode_response(&r),
        bytes("HTTP/1.1 500 Internal Server Error\r\nContent-Length: 0\r\n\r\n")
    );
}

#[test]
fn encode_renders_multi_digit_lengths() {
    let body = vec![b'x'; 120];
    let r = HttpResponse { status: Status::Success, body: body.clone(), include_body: true };
    let out = encode_response(&r);
    let mut expected = bytes("HTTP/1.1 200 OK\r\nContent-Length: 120\r\n\r\n");
    expected.extend_from_slice(&body);
    assert_eq!(out, expected);
}

#[test]
fn status_codes_on_the_wire() {
    assert_eq!(status_code(Status::Success), 200);
    assert_eq!(status_code(Status::NotFound), 404);
    assert_eq!(status_code(Status::MethodNotAllowed), 405);
    assert_eq!(status_code(Status::BadRequest), 400);
    assert_eq!(status_code(Status::InternalError), 500);
}

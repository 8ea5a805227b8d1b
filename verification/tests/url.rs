use localserve::url::server_url;

#[test]
fn url_for_the_fixed_port() {
    assert_eq!(server_url(3000), "http://127.0.0.1:3000");
}

#[test]
fn url_for_small_ports() {
    assert_eq!(server_url(0), "http://127.0.0.1:0");
    assert_eq!(server_url(7), "http://127.0.0.1:7");
    assert_eq!(server_url(80), "http://127.0.0.1:80");
}

#[test]
fn url_for_the_largest_port() {
    assert_eq!(server_url(65535), "http://127.0.0.1:65535");
}

#[test]
fn url_keeps_inner_zeroes() {
    assert_eq!(server_url(8080), "http://127.0.0.1:8080");
    assert_eq!(server_url(10001), "http://127.0.0.1:10001");
}

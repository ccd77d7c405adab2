use study_rust::respond::build_response;
use study_rust::respond::handle_request;
use study_rust::respond::is_index_request;

#[test]
fn two_index_connections_get_ok_with_exact_content_length() {
    // Two connections in a row, each sending the recognized request
    // line: both responses start with "HTTP/1.1 200 OK" and carry a
    // Content-Length equal to the index body's byte length.
    let index_body = b"<html><body>hello index</body></html>";
    let not_found_body = b"<html><body>missing</body></html>";
    let request = b"GET / HTTP/1.1\r\nHost: localhost:8888\r\n\r\n";
    for _ in 0..2 {
        let response = handle_request(request, index_body, not_found_body);
        assert!(response.starts_with(b"HTTP/1.1 200 OK"));
        let expected = format!(
            "HTTP/1.1 200 OK\r\nContent-Length: {}\r\n\r\n{}",
            index_body.len(),
            "<html><body>hello index</body></html>"
        );
        assert_eq!(response, expected.into_bytes());
    }
}

#[test]
fn unrecognized_request_gets_not_found() {
    let index_body = b"index page";
    let not_found_body = b"not here";
    let request = b"GET /missing HTTP/1.1\r\n\r\n";
    let response = handle_request(request, index_body, not_found_body);
    assert!(response.starts_with(b"HTTP/1.1 404 NOT FOUND"));
    let expected = format!(
        "HTTP/1.1 404 NOT FOUND\r\nContent-Length: {}\r\n\r\n{}",
        not_found_body.len(),
        "not here"
    );
    assert_eq!(response, expected.into_bytes());
}

#[test]
fn request_routing_checks_the_exact_prefix() {
    assert!(is_index_request(b"GET / HTTP/1.1\r\nmore headers"));
    assert!(is_index_request(b"GET / HTTP/1.1\r\n"));
    assert!(!is_index_request(b"GET / HTTP/1.0\r\n"));
    assert!(!is_index_request(b"POST / HTTP/1.1\r\n"));
    assert!(!is_index_request(b"GET / HTTP/1.1"));
    assert!(!is_index_request(b""));
}

#[test]
fn content_length_is_decimal_byte_count() {
    let empty = build_response(true, b"");
    assert_eq!(
        empty,
        b"HTTP/1.1 200 OK\r\nContent-Length: 0\r\n\r\n".to_vec()
    );

    let body = vec![b'x'; 123];
    let long = build_response(false, &body);
    let mut expected =
        b"HTTP/1.1 404 NOT FOUND\r\nContent-Length: 123\r\n\r\n".to_vec();
    expected.extend_from_slice(&body);
    assert_eq!(long, expected);
}

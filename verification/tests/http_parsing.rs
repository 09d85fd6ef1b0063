//! Tests of HTTP response parsing: head/body splitting, status codes,
//! chunked decoding, and the JSON payload extraction.

use backend_supervisor::http::{
    decode_chunked_body, header_is_chunked, parse_http_json_payload, parse_http_response_parts,
    parse_http_status_code, parse_http_status_code_from_headers,
};
use backend_supervisor::json::parse_http_json_response;

#[test]
fn response_parts_split_at_blank_line() {
    let raw = b"HTTP/1.1 200 OK\r\nContent-Type: application/json\r\n\r\n{\"a\":1}";
    let (head, body) = parse_http_response_parts(raw).unwrap();
    assert_eq!(head, b"HTTP/1.1 200 OK\r\nContent-Type: application/json\r\n\r\n".to_vec());
    assert_eq!(body, b"{\"a\":1}".to_vec());
}

#[test]
fn response_parts_need_a_blank_line() {
    assert!(parse_http_response_parts(b"HTTP/1.1 200 OK\r\n").is_none());
    assert!(parse_http_response_parts(b"").is_none());
}

#[test]
fn status_code_is_second_token_of_first_line() {
    assert_eq!(parse_http_status_code_from_headers(b"HTTP/1.1 200 OK\r\n\r\n"), Some(200));
    assert_eq!(parse_http_status_code_from_headers(b"HTTP/1.1 503 Unavailable\r\n\r\n"), Some(503));
    assert_eq!(parse_http_status_code_from_headers(b"HTTP/1.1\r\n\r\n"), None);
    assert_eq!(parse_http_status_code_from_headers(b"HTTP/1.1 abc OK\r\n\r\n"), None);
    assert_eq!(parse_http_status_code_from_headers(b""), None);
}

#[test]
fn status_code_of_whole_response() {
    let raw = b"HTTP/1.1 404 Not Found\r\nConnection: close\r\n\r\nmissing";
    assert_eq!(parse_http_status_code(raw), Some(404));
    assert_eq!(parse_http_status_code(b"no blank line"), None);
}

#[test]
fn chunked_body_decodes() {
    let body = b"4\r\nWiki\r\n5\r\npedia\r\n0\r\n\r\n";
    assert_eq!(decode_chunked_body(body).unwrap(), b"Wikipedia".to_vec());
}

#[test]
fn chunked_body_hex_sizes_and_extensions() {
    let body = b"a;ext=1\r\n0123456789\r\n0\r\n\r\n";
    assert_eq!(decode_chunked_body(body).unwrap(), b"0123456789".to_vec());
    let upper = b"A\r\n0123456789\r\n0\r\n\r\n";
    assert_eq!(decode_chunked_body(upper).unwrap(), b"0123456789".to_vec());
}

#[test]
fn chunked_body_truncated_size_line_is_rejected() {
    assert!(decode_chunked_body(b"4").is_none());
    assert!(decode_chunked_body(b"").is_none());
}

#[test]
fn chunked_body_short_final_chunk_is_rejected() {
    assert!(decode_chunked_body(b"5\r\nab").is_none());
    assert!(decode_chunked_body(b"4\r\nWiki\r\n5\r\nped").is_none());
}

#[test]
fn chunked_body_missing_trailing_crlf_is_rejected() {
    assert!(decode_chunked_body(b"4\r\nWikiXX0\r\n\r\n").is_none());
}

#[test]
fn chunked_body_bad_size_is_rejected() {
    assert!(decode_chunked_body(b"zz\r\nWiki\r\n0\r\n\r\n").is_none());
}

#[test]
fn chunked_stops_at_zero_chunk() {
    let body = b"2\r\nhi\r\n0\r\nTrailer: ignored\r\n\r\n";
    assert_eq!(decode_chunked_body(body).unwrap(), b"hi".to_vec());
}

#[test]
fn transfer_encoding_detection_is_case_insensitive() {
    assert!(header_is_chunked(b"HTTP/1.1 200 OK\r\nTransfer-Encoding: chunked\r\n\r\n"));
    assert!(header_is_chunked(b"HTTP/1.1 200 OK\r\n  TRANSFER-ENCODING: Chunked\r\n\r\n"));
    assert!(!header_is_chunked(b"HTTP/1.1 200 OK\r\nContent-Length: 2\r\n\r\n"));
    assert!(!header_is_chunked(b"HTTP/1.1 200 OK\r\nX-Transfer-Encoding: chunked\r\n\r\n"));
}

#[test]
fn payload_of_plain_response() {
    let raw = b"HTTP/1.1 200 OK\r\nContent-Type: application/json\r\n\r\n{\"ok\":true}";
    assert_eq!(parse_http_json_payload(raw).unwrap(), b"{\"ok\":true}".to_vec());
}

#[test]
fn payload_of_chunked_response() {
    let raw = b"HTTP/1.1 200 OK\r\nTransfer-Encoding: chunked\r\n\r\n6\r\n{\"a\":1\r\n1\r\n}\r\n0\r\n\r\n";
    assert_eq!(parse_http_json_payload(raw).unwrap(), b"{\"a\":1}".to_vec());
}

#[test]
fn payload_rejects_non_2xx_whatever_the_body() {
    let raw = b"HTTP/1.1 500 Internal Server Error\r\n\r\n{\"ok\":true}";
    assert!(parse_http_json_payload(raw).is_none());
    let raw199 = b"HTTP/1.1 199 Early\r\n\r\n{\"ok\":true}";
    assert!(parse_http_json_payload(raw199).is_none());
    let raw300 = b"HTTP/1.1 300 Multiple\r\n\r\n{\"ok\":true}";
    assert!(parse_http_json_payload(raw300).is_none());
}

#[test]
fn payload_rejects_broken_chunk_framing() {
    let raw = b"HTTP/1.1 200 OK\r\nTransfer-Encoding: chunked\r\n\r\n6\r\n{\"a\":1";
    assert!(parse_http_json_payload(raw).is_none());
}

#[test]
fn json_response_parses_payload() {
    let raw = b"HTTP/1.1 200 OK\r\nContent-Type: application/json\r\n\r\n{\"status\":\"ok\",\"n\":7}";
    let value = parse_http_json_response(raw).unwrap();
    assert_eq!(value.get("status").and_then(|s| s.as_str()), Some("ok"));
    assert_eq!(value.get("n").and_then(|n| n.as_i64()), Some(7));
}

#[test]
fn json_response_rejects_non_2xx_and_bad_json() {
    assert!(parse_http_json_response(b"HTTP/1.1 500 Oops\r\n\r\n{\"status\":\"ok\"}").is_none());
    assert!(parse_http_json_response(b"HTTP/1.1 200 OK\r\n\r\nnot json at all").is_none());
}

use reqwest::header::HeaderMap;
use reqwest::header::HeaderValue;
use rolldown_deno::http_client::bytes_response;
use rolldown_deno::http_client::can_be_header_value;
use rolldown_deno::http_client::download_outcome;
use rolldown_deno::http_client::download_outcome_with;
use rolldown_deno::http_client::request_headers;
use rolldown_deno::http_client::send_outcome;
use rolldown_deno::http_client::BytesResponse;
use rolldown_deno::http_client::DownloadError;
use rolldown_deno::http_client::DownloadOutcome;
use rolldown_deno::http_client::SendOutcome;

fn failed(status: u16, message: &str) -> DownloadOutcome {
    DownloadOutcome::Failed(DownloadError {
        status_code: Some(status),
        message: message.to_string(),
    })
}

#[test]
fn send_outcomes_at_the_borders() {
    assert_eq!(send_outcome(200), SendOutcome::Success);
    assert_eq!(send_outcome(299), SendOutcome::Success);
    assert_eq!(send_outcome(300), SendOutcome::Redirect);
    assert_eq!(send_outcome(303), SendOutcome::Redirect);
    assert_eq!(send_outcome(304), SendOutcome::NotModified);
    assert_eq!(send_outcome(305), SendOutcome::Redirect);
    assert_eq!(send_outcome(399), SendOutcome::Redirect);
    assert_eq!(send_outcome(400), SendOutcome::Success);
    assert_eq!(send_outcome(403), SendOutcome::Success);
    assert_eq!(send_outcome(404), SendOutcome::NotFound);
    assert_eq!(send_outcome(499), SendOutcome::Success);
    assert_eq!(send_outcome(500), SendOutcome::StatusCode(500));
    assert_eq!(send_outcome(599), SendOutcome::StatusCode(599));
    assert_eq!(send_outcome(600), SendOutcome::Success);
    assert_eq!(send_outcome(100), SendOutcome::Success);
}

#[test]
fn send_outcomes_match_the_status_code() {
    for status in 100..1000 {
        let code = reqwest::StatusCode::from_u16(status).unwrap();
        let redirect = code.is_redirection() && code != reqwest::StatusCode::NOT_MODIFIED;
        assert_eq!(send_outcome(status) == SendOutcome::Redirect, redirect);
        assert_eq!(
            send_outcome(status) == SendOutcome::StatusCode(status),
            code.is_server_error()
        );
        assert_eq!(download_outcome(status) == DownloadOutcome::Bytes, code.is_success());
    }
}

#[test]
fn download_outcomes_at_the_borders() {
    assert_eq!(download_outcome(200), DownloadOutcome::Bytes);
    assert_eq!(download_outcome(299), DownloadOutcome::Bytes);
    assert_eq!(download_outcome(304), DownloadOutcome::NotModified);
    assert_eq!(download_outcome(404), DownloadOutcome::NotFound);
    assert_eq!(download_outcome(199), failed(199, "unknown error"));
    assert_eq!(download_outcome(301), failed(301, "Moved Permanently"));
    assert_eq!(download_outcome(403), failed(403, "Forbidden"));
    assert_eq!(download_outcome(500), failed(500, "Internal Server Error"));
    assert_eq!(download_outcome(599), failed(599, "unknown error"));
}

#[test]
fn failed_download_tells_the_reason() {
    assert_eq!(download_outcome_with(418, Some("tea")), failed(418, "tea"));
    assert_eq!(download_outcome_with(418, None), failed(418, "unknown error"));
    assert_eq!(download_outcome_with(204, Some("tea")), DownloadOutcome::Bytes);
}

#[test]
fn outcomes_agree() {
    for status in 100..1000 {
        let download = download_outcome(status);
        let send = send_outcome(status);
        assert_eq!(send == SendOutcome::NotFound, download == DownloadOutcome::NotFound);
        assert_eq!(send == SendOutcome::NotModified, download == DownloadOutcome::NotModified);
        if download == DownloadOutcome::Bytes {
            assert_eq!(send, SendOutcome::Success);
        }
        if send == SendOutcome::StatusCode(status) {
            assert!(matches!(download, DownloadOutcome::Failed(_)));
        }
    }
}

#[test]
fn header_values_hold_no_control_characters() {
    assert!(can_be_header_value("Bearer a b\tc"));
    assert!(can_be_header_value("\u{e9}"));
    assert!(can_be_header_value(""));
    assert!(!can_be_header_value("a\nb"));
    assert!(!can_be_header_value("a\u{7f}"));
    assert!(!can_be_header_value("\u{0}"));
    for text in ["a", "a\r", "\u{1f}", " ~", "\u{80}"] {
        assert_eq!(can_be_header_value(text), HeaderValue::try_from(text).is_ok());
    }
}

#[test]
fn request_carries_what_it_is_given() {
    let headers = request_headers(Some("Basic x".to_string()), Some("\"tag\"".to_string()));
    assert_eq!(headers.len(), 2);
    assert_eq!(headers.get("authorization").unwrap(), "Basic x");
    assert_eq!(headers.get("if-none-match").unwrap(), "\"tag\"");
    let headers = request_headers(None, Some("t".to_string()));
    assert_eq!(headers.len(), 1);
    assert_eq!(headers.get("if-none-match").unwrap(), "t");
    let headers = request_headers(Some("a".to_string()), None);
    assert_eq!(headers.len(), 1);
    assert_eq!(headers.get("authorization").unwrap(), "a");
    assert!(request_headers(None, None).is_empty());
}

#[test]
fn response_has_the_first_visible_tag() {
    let mut headers = HeaderMap::new();
    let body = vec![1, 2, 3];
    assert_eq!(
        bytes_response(&headers, body.clone()),
        BytesResponse { etag: None, bytes: body.clone() }
    );
    headers.append("ETag", HeaderValue::from_static("W/\"1\""));
    headers.append("etag", HeaderValue::from_static("second"));
    assert_eq!(
        bytes_response(&headers, body.clone()),
        BytesResponse { etag: Some("W/\"1\"".to_string()), bytes: body.clone() }
    );
    let mut headers = HeaderMap::new();
    headers.append("etag", HeaderValue::from_bytes(b"\xff").unwrap());
    headers.append("etag", HeaderValue::from_static("second"));
    assert_eq!(bytes_response(&headers, body).etag, None);
}

#[test]
fn tag_can_be_sent_back() {
    let mut reply = HeaderMap::new();
    reply.append("etag", HeaderValue::from_static("\"a\tb\""));
    let etag = bytes_response(&reply, Vec::new()).etag.unwrap();
    assert!(can_be_header_value(&etag));
    let request = request_headers(None, Some(etag));
    assert_eq!(request.get("if-none-match"), reply.get("etag"));
}

use axum::http::{HeaderMap, HeaderValue};
use codex_session_kit::clock::Timestamp;
use codex_session_kit::http_response::{format_headers, show_headers};
use codex_session_kit::remote_control::enrollment::{RemoteControlEnrollment, RemoteControlTarget};
use codex_session_kit::remote_control::error::{ErrorKind, RemoteControlError};
use codex_session_kit::remote_control::pairing::{
    show_response, PairingReply, PairingRequest, RemoteControlPairingStartResponse,
    RemoteControlPairingStatusResponse, ShownResponse, StartRemoteControlPairingResponse,
    REMOTE_CONTROL_ORIGINATOR_HEADER,
};

fn enrollment() -> RemoteControlEnrollment {
    RemoteControlEnrollment {
        remote_control_target: RemoteControlTarget {
            websocket_url: "wss://host".to_string(),
            enroll_url: "https://host/enroll".to_string(),
            pair_url: "https://host/pair".to_string(),
            pair_status_url: "https://host/status".to_string(),
        },
        account_id: "account".to_string(),
        environment_id: "env".to_string(),
        server_id: "srv".to_string(),
        server_name: "server".to_string(),
        remote_control_token: Some("token".to_string()),
        expires_at: Some(Timestamp { unix_nanos: 100 }),
        next_refresh_at: None,
    }
}

fn started(server_id: &str, environment_id: &str) -> StartRemoteControlPairingResponse {
    StartRemoteControlPairingResponse {
        pairing_code: "code".to_string(),
        manual_pairing_code: Some("ABCD-EFGH".to_string()),
        server_id: server_id.to_string(),
        environment_id: environment_id.to_string(),
        expires_at: "2030-01-01T01:00:00+01:00".to_string(),
    }
}

fn headers() -> HeaderMap {
    let mut headers = HeaderMap::new();
    headers.insert("x-request-id", HeaderValue::from_static("req-1"));
    headers
}

fn response<T>(status: u16, body: &[u8], decoded: Result<T, String>) -> PairingReply<T> {
    PairingReply::Response {
        status,
        headers: headers(),
        body: body.to_vec(),
        decoded,
    }
}

fn failure<T>(kind: ErrorKind, message: &str) -> Result<T, RemoteControlError> {
    Err(RemoteControlError {
        kind,
        message: message.to_string(),
    })
}

#[test]
fn requests_carry_the_token() {
    let enrollment = enrollment();
    let token = enrollment
        .pairing_token_at(Timestamp { unix_nanos: 99 })
        .expect("token should be live");
    assert_eq!(
        enrollment.start_pairing_request(token, "origin".to_string(), "agent".to_string()),
        PairingRequest {
            url: "https://host/pair".to_string(),
            timeout_secs: 30,
            originator: "origin".to_string(),
            user_agent: "agent".to_string(),
            bearer_token: "token".to_string(),
        }
    );
    assert_eq!(
        enrollment
            .pairing_status_request(token, "origin".to_string(), "agent".to_string())
            .url,
        "https://host/status"
    );
    assert_eq!(REMOTE_CONTROL_ORIGINATOR_HEADER, "originator");
}

#[test]
fn pairing_is_unavailable_without_a_live_token() {
    let mut enrollment = enrollment();
    assert_eq!(enrollment.pairing_token_at(Timestamp { unix_nanos: 100 }), None);
    enrollment.clear_server_token();
    assert_eq!(enrollment.pairing_token_at(Timestamp { unix_nanos: 0 }), None);
}

#[test]
fn a_started_pairing_is_told() {
    assert_eq!(
        enrollment().start_pairing_outcome(response(200, b"{}", Ok(started("srv", "env")))),
        Ok(RemoteControlPairingStartResponse {
            pairing_code: "code".to_string(),
            manual_pairing_code: Some("ABCD-EFGH".to_string()),
            environment_id: "env".to_string(),
            expires_at: 1_893_456_000,
        })
    );
}

#[test]
fn a_pairing_of_another_enrollment_is_refused() {
    assert_eq!(
        enrollment().start_pairing_outcome(response(201, b"{}", Ok(started("srv", "other")))),
        failure(
            ErrorKind::Other,
            "remote control pairing returned mismatched enrollment: expected server_id=srv, environment_id=env; got server_id=srv, environment_id=other",
        )
    );
    assert_eq!(
        enrollment().start_pairing_outcome(response(201, b"{}", Ok(started("x", "env")))),
        failure(
            ErrorKind::Other,
            "remote control pairing returned mismatched enrollment: expected server_id=srv, environment_id=env; got server_id=x, environment_id=env",
        )
    );
}

#[test]
fn refused_pairings_fail_by_status() {
    let refused = |status: u16, kind: ErrorKind, shown: &str| {
        assert_eq!(
            enrollment().start_pairing_outcome(response(
                status,
                b"{\"pairing_code\":\"secret\"}",
                Ok(started("srv", "env")),
            )),
            failure(
                kind,
                &format!("remote control pairing failed at `https://host/pair`: HTTP {shown}, request-id: req-1, cf-ray: <none>, body: {{\"pairing_code\":\"<redacted>\"}}"),
            )
        );
    };
    refused(401, ErrorKind::PermissionDenied, "401 Unauthorized");
    refused(403, ErrorKind::PermissionDenied, "403 Forbidden");
    refused(404, ErrorKind::NotFound, "404 Not Found");
    refused(410, ErrorKind::Other, "410 Gone");
    refused(199, ErrorKind::Other, "199 <unknown status code>");
    refused(300, ErrorKind::Other, "300 Multiple Choices");
}

#[test]
fn responses_that_cannot_be_read_fail() {
    assert_eq!(
        enrollment().start_pairing_outcome(response(200, b" ", Err("no json".to_string()))),
        failure(
            ErrorKind::Other,
            "failed to parse remote control pairing response from `https://host/pair`: HTTP 200 OK, request-id: req-1, cf-ray: <none>, body: <empty>, decode error: no json",
        )
    );
    let mut late = started("srv", "env");
    late.expires_at = "tomorrow".to_string();
    match enrollment().start_pairing_outcome(response(200, b"body", Ok(late))) {
        Err(err) => {
            assert_eq!(err.kind, ErrorKind::InvalidData);
            assert!(err.message.starts_with("failed to parse remote control pairing response from `https://host/pair`: HTTP 200 OK, request-id: req-1, cf-ray: <none>, body: body, expires_at parse error: "));
        }
        other => panic!("unexpected outcome: {other:?}"),
    }
}

#[test]
fn given_what_was_read_the_outcome_is_exact() {
    let shown = ShownResponse {
        status: 299,
        status_text: "299 Fine".to_string(),
        headers: "ids".to_string(),
        body_preview: "start".to_string(),
    };
    assert_eq!(
        enrollment().started_pairing(&shown, Ok(started("srv", "env")), Err("odd".to_string())),
        failure(
            ErrorKind::InvalidData,
            "failed to parse remote control pairing response from `https://host/pair`: HTTP 299 Fine, ids, body: start, expires_at parse error: odd",
        )
    );
    assert_eq!(
        enrollment()
            .started_pairing(&shown, Ok(started("srv", "env")), Ok(7))
            .map(|response| response.expires_at),
        Ok(7)
    );
    assert_eq!(
        enrollment().checked_pairing(
            &shown,
            Ok(RemoteControlPairingStatusResponse { claimed: true }),
        ),
        Ok(RemoteControlPairingStatusResponse { claimed: true })
    );
}

#[test]
fn requests_without_a_response_fail() {
    let err = || "timed out".to_string();
    assert_eq!(
        enrollment().start_pairing_outcome(PairingReply::SendFailed { err: err() }),
        failure(
            ErrorKind::Other,
            "failed to start remote control pairing at `https://host/pair`: timed out",
        )
    );
    assert_eq!(
        enrollment().start_pairing_outcome(PairingReply::ReadFailed { err: err() }),
        failure(
            ErrorKind::Other,
            "failed to read remote control pairing response from `https://host/pair`: timed out",
        )
    );
    assert_eq!(
        enrollment().pairing_status_outcome(PairingReply::SendFailed { err: err() }),
        failure(
            ErrorKind::Other,
            "failed to check remote control pairing status at `https://host/status`: timed out",
        )
    );
    assert_eq!(
        enrollment().pairing_status_outcome(PairingReply::ReadFailed { err: err() }),
        failure(
            ErrorKind::Other,
            "failed to read remote control pairing status response from `https://host/status`: timed out",
        )
    );
}

#[test]
fn the_status_of_a_pairing_is_told() {
    let claimed = |claimed: bool| Ok(RemoteControlPairingStatusResponse { claimed });
    assert_eq!(
        enrollment().pairing_status_outcome(response(200, b"", claimed(false))),
        Ok(RemoteControlPairingStatusResponse { claimed: false })
    );
    let refused = |status: u16, kind: ErrorKind, shown: &str| {
        assert_eq!(
            enrollment().pairing_status_outcome(response(status, b"no", claimed(true))),
            failure(
                kind,
                &format!("remote control pairing status failed at `https://host/status`: HTTP {shown}, request-id: req-1, cf-ray: <none>, body: no"),
            )
        );
    };
    refused(403, ErrorKind::PermissionDenied, "403 Forbidden");
    refused(404, ErrorKind::InvalidInput, "404 Not Found");
    refused(410, ErrorKind::InvalidInput, "410 Gone");
    refused(500, ErrorKind::Other, "500 Internal Server Error");
    assert_eq!(
        enrollment().pairing_status_outcome(response(200, b"no", Err("odd".to_string()))),
        failure(
            ErrorKind::Other,
            "failed to parse remote control pairing status response from `https://host/status`: HTTP 200 OK, request-id: req-1, cf-ray: <none>, body: no, decode error: odd",
        )
    );
}

#[test]
fn headers_are_shown_by_which_a_request_can_be_traced() {
    assert_eq!(
        format_headers(&HeaderMap::new()),
        "request-id: <none>, cf-ray: <none>"
    );
    let mut headers = HeaderMap::new();
    headers.append("x-oai-request-id", HeaderValue::from_static("oai"));
    headers.append("CF-Ray", HeaderValue::from_static("first"));
    headers.append("cf-ray", HeaderValue::from_static("second"));
    assert_eq!(format_headers(&headers), "request-id: oai, cf-ray: first");
    headers.insert(
        "x-request-id",
        HeaderValue::from_bytes(b"\xe4").expect("value should be allowed"),
    );
    assert_eq!(
        format_headers(&headers),
        "request-id: <invalid utf-8>, cf-ray: first"
    );
    assert_eq!(
        show_headers(Some(b"a\tb ~".to_vec()), Some(b"c".to_vec()), Some(vec![127])),
        "request-id: a\tb ~, cf-ray: <invalid utf-8>"
    );
}

#[test]
fn a_response_is_shown_without_secrets() {
    let shown = show_response(404, &headers(), b"{\"remote_control_token\":\"t\"}");
    assert_eq!(
        shown,
        ShownResponse {
            status: 404,
            status_text: "404 Not Found".to_string(),
            headers: "request-id: req-1, cf-ray: <none>".to_string(),
            body_preview: "{\"remote_control_token\":\"<redacted>\"}".to_string(),
        }
    );
}

#[test]
fn messages_tell_nothing_of_sensitive_values() {
    let refused = |body: &[u8]| {
        enrollment()
            .start_pairing_outcome(response(500, body, Ok(started("srv", "env"))))
            .expect_err("pairing should be refused")
    };
    assert_eq!(
        refused(b"{\"detail\":\"no\",\"pairing_code\":\"one\"}"),
        refused(b" {\"pairing_code\":{\"two\":2},\"detail\":\"no\"}")
    );
}

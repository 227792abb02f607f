//! Pairing a client with an enrolled server.
//!
//! The caller sends the requests. What goes into them, and what is made of the replies, is
//! decided here.

use axum::http::HeaderMap;
use vstd::prelude::*;

use crate::clock::{clock_says, parse_rfc3339, read_clock, rfc3339_timestamp, Timestamp};
use crate::encoding::utf8_lossy;
use crate::http_response::{
    format_headers, formatted_headers, is_status, is_success_status, show_status, status_text,
};
use crate::json::json_document;
use crate::protocol::optional_text;
use crate::remote_control::enrollment::{
    EnrollmentView, RemoteControlEnrollment, RemoteControlServerTokenRefreshRequirement,
};
use crate::remote_control::error::{other_error, ErrorKind, ErrorView, RemoteControlError};
use crate::remote_control::preview::{
    body_preview, is_sensitive, law_preview_does_not_depend_on_sensitive_values,
    preview_remote_control_response_body,
};
use crate::text::{same_text, trim_spec};

verus! {

/// How long a pairing request may take.
pub const REMOTE_CONTROL_PAIRING_TIMEOUT_SECS: u64 = 30;

/// The header that names the originator of a request.
pub const REMOTE_CONTROL_ORIGINATOR_HEADER: &'static str = "originator";

/// What a pairing request is sent with, beside its JSON body.
#[derive(Debug, PartialEq, Eq)]
pub struct PairingRequest {
    pub url: String,
    pub timeout_secs: u64,
    pub originator: String,
    pub user_agent: String,
    pub bearer_token: String,
}

/// A pairing request, with its texts.
pub struct PairingRequestView {
    pub url: Seq<char>,
    pub timeout_secs: u64,
    pub originator: Seq<char>,
    pub user_agent: Seq<char>,
    pub bearer_token: Seq<char>,
}

impl View for PairingRequest {
    type V = PairingRequestView;

    open spec fn view(&self) -> PairingRequestView {
        PairingRequestView {
            url: self.url@,
            timeout_secs: self.timeout_secs,
            originator: self.originator@,
            user_agent: self.user_agent@,
            bearer_token: self.bearer_token@,
        }
    }
}

/// What came of a pairing request. `decoded` is what the body reads as, or why it does not.
pub enum PairingReply<T> {
    SendFailed { err: String },
    ReadFailed { err: String },
    Response { status: u16, headers: HeaderMap, body: Vec<u8>, decoded: Result<T, String> },
}

impl<T> PairingReply<T> {
    /// A response has a status that HTTP has.
    pub open spec fn is_valid(self) -> bool {
        self matches PairingReply::Response { status, .. } ==> is_status(status)
    }
}

/// What a service answers when a pairing is started.
#[derive(Debug, PartialEq, Eq)]
pub struct StartRemoteControlPairingResponse {
    pub pairing_code: String,
    pub manual_pairing_code: Option<String>,
    pub server_id: String,
    pub environment_id: String,
    pub expires_at: String,
}

/// What a client is told of a pairing that was started.
#[derive(Debug, PartialEq, Eq)]
pub struct RemoteControlPairingStartResponse {
    pub pairing_code: String,
    pub manual_pairing_code: Option<String>,
    pub environment_id: String,
    pub expires_at: i64,
}

/// What a client is told of a pairing, with its texts.
pub struct PairingStartView {
    pub pairing_code: Seq<char>,
    pub manual_pairing_code: Option<Seq<char>>,
    pub environment_id: Seq<char>,
    pub expires_at: i64,
}

impl View for RemoteControlPairingStartResponse {
    type V = PairingStartView;

    open spec fn view(&self) -> PairingStartView {
        PairingStartView {
            pairing_code: self.pairing_code@,
            manual_pairing_code: optional_text(self.manual_pairing_code),
            environment_id: self.environment_id@,
            expires_at: self.expires_at,
        }
    }
}

/// Whether a pairing was claimed.
#[derive(Clone, Copy, Debug, PartialEq, Eq, Structural)]
pub struct RemoteControlPairingStatusResponse {
    pub claimed: bool,
}

/// A response as messages show it.
#[derive(Debug, PartialEq, Eq)]
pub struct ShownResponse {
    pub status: u16,
    /// The status, such as `404 Not Found`.
    pub status_text: String,
    /// The headers by which the request can be traced.
    pub headers: String,
    /// The start of the body, without secrets.
    pub body_preview: String,
}

/// A response as messages show it, with its texts.
pub struct ShownView {
    pub status: u16,
    pub status_text: Seq<char>,
    pub headers: Seq<char>,
    pub body_preview: Seq<char>,
}

impl View for ShownResponse {
    type V = ShownView;

    open spec fn view(&self) -> ShownView {
        ShownView {
            status: self.status,
            status_text: self.status_text@,
            headers: self.headers@,
            body_preview: self.body_preview@,
        }
    }
}

/// How messages show a response.
pub open spec fn shown_response(status: u16, headers: HeaderMap, body: Seq<u8>) -> ShownView {
    ShownView {
        status,
        status_text: status_text(status),
        headers: formatted_headers(headers),
        body_preview: body_preview(body),
    }
}

/// How messages show a response.
pub fn show_response(status: u16, headers: &HeaderMap, body: &[u8]) -> (r: ShownResponse)
    requires
        is_status(status),
    ensures
        r@ == shown_response(status, *headers, body@),
{
    ShownResponse {
        status,
        status_text: show_status(status),
        headers: format_headers(headers),
        body_preview: preview_remote_control_response_body(body),
    }
}

/// A message about a request that got no response.
pub open spec fn exchange_message(lead: Seq<char>, url: Seq<char>, err: Seq<char>) -> Seq<char> {
    lead + " `"@ + url + "`: "@ + err
}

/// A message about a response.
pub open spec fn response_message(lead: Seq<char>, url: Seq<char>, shown: ShownView) -> Seq<char> {
    lead + " `"@ + url + "`: HTTP "@ + shown.status_text + ", "@ + shown.headers + ", body: "@
        + shown.body_preview
}

fn write_exchange_message(lead: &str, url: &str, err: &str) -> (r: String)
    ensures
        r@ == exchange_message(lead@, url@, err@),
{
    let mut out = lead.to_owned();
    out.append(" `");
    out.append(url);
    out.append("`: ");
    out.append(err);
    out
}

fn write_response_message(lead: &str, url: &str, shown: &ShownResponse) -> (r: String)
    ensures
        r@ == response_message(lead@, url@, shown@),
{
    let mut out = lead.to_owned();
    out.append(" `");
    out.append(url);
    out.append("`: HTTP ");
    out.append(shown.status_text.as_str());
    out.append(", ");
    out.append(shown.headers.as_str());
    out.append(", body: ");
    out.append(shown.body_preview.as_str());
    out
}

/// What kind of failure a refused start of a pairing is.
pub open spec fn start_refusal_kind(status: u16) -> ErrorKind {
    if status == 401 || status == 403 {
        ErrorKind::PermissionDenied
    } else if status == 404 {
        ErrorKind::NotFound
    } else {
        ErrorKind::Other
    }
}

/// What kind of failure a refused question for a pairing's status is.
pub open spec fn status_refusal_kind(status: u16) -> ErrorKind {
    if status == 401 || status == 403 {
        ErrorKind::PermissionDenied
    } else if status == 404 || status == 410 {
        ErrorKind::InvalidInput
    } else {
        ErrorKind::Other
    }
}

/// The message about a pairing that belongs to another enrollment.
pub open spec fn mismatch_message(
    enrollment: EnrollmentView,
    server_id: Seq<char>,
    environment_id: Seq<char>,
) -> Seq<char> {
    "remote control pairing returned mismatched enrollment: expected server_id="@
        + enrollment.server_id + ", environment_id="@ + enrollment.environment_id
        + "; got server_id="@ + server_id + ", environment_id="@ + environment_id
}

impl EnrollmentView {
    /// The token to pair with at `now`: there is one unless it has to be refreshed first.
    pub open spec fn pairing_token(self, now: Timestamp) -> Option<Seq<char>> {
        if self.refresh_requirement(now) == RemoteControlServerTokenRefreshRequirement::Required {
            None
        } else {
            self.remote_control_token
        }
    }

    /// The request with which a pairing is started.
    pub open spec fn start_pairing_request(
        self,
        token: Seq<char>,
        originator: Seq<char>,
        user_agent: Seq<char>,
    ) -> PairingRequestView {
        PairingRequestView {
            url: self.remote_control_target.pair_url,
            timeout_secs: REMOTE_CONTROL_PAIRING_TIMEOUT_SECS,
            originator,
            user_agent,
            bearer_token: token,
        }
    }

    /// The request with which a pairing's status is asked for.
    pub open spec fn pairing_status_request(
        self,
        token: Seq<char>,
        originator: Seq<char>,
        user_agent: Seq<char>,
    ) -> PairingRequestView {
        PairingRequestView {
            url: self.remote_control_target.pair_status_url,
            timeout_secs: REMOTE_CONTROL_PAIRING_TIMEOUT_SECS,
            originator,
            user_agent,
            bearer_token: token,
        }
    }

    /// What is made of a response to the start of a pairing. `expires_at` is what the decoded
    /// response's expiry reads as.
    pub open spec fn started_pairing(
        self,
        shown: ShownView,
        decoded: Result<StartRemoteControlPairingResponse, String>,
        expires_at: Result<i64, Seq<char>>,
    ) -> Result<PairingStartView, ErrorView> {
        let url = self.remote_control_target.pair_url;
        let parse_failure = response_message(
            "failed to parse remote control pairing response from"@,
            url,
            shown,
        );
        if !is_success_status(shown.status) {
            Err(
                ErrorView {
                    kind: start_refusal_kind(shown.status),
                    message: response_message("remote control pairing failed at"@, url, shown),
                },
            )
        } else {
            match decoded {
                Err(err) => Err(other_error(parse_failure + ", decode error: "@ + err@)),
                Ok(pairing) => if pairing.server_id@ != self.server_id || pairing.environment_id@
                    != self.environment_id {
                    Err(
                        other_error(
                            mismatch_message(self, pairing.server_id@, pairing.environment_id@),
                        ),
                    )
                } else {
                    match expires_at {
                        Err(err) => Err(
                            ErrorView {
                                kind: ErrorKind::InvalidData,
                                message: parse_failure + ", expires_at parse error: "@ + err,
                            },
                        ),
                        Ok(seconds) => Ok(
                            PairingStartView {
                                pairing_code: pairing.pairing_code@,
                                manual_pairing_code: optional_text(pairing.manual_pairing_code),
                                environment_id: pairing.environment_id@,
                                expires_at: seconds,
                            },
                        ),
                    }
                },
            }
        }
    }

    /// What comes of starting a pairing.
    pub open spec fn start_pairing_outcome(
        self,
        reply: PairingReply<StartRemoteControlPairingResponse>,
    ) -> Result<PairingStartView, ErrorView> {
        let url = self.remote_control_target.pair_url;
        match reply {
            PairingReply::SendFailed { err } => Err(
                other_error(
                    exchange_message("failed to start remote control pairing at"@, url, err@),
                ),
            ),
            PairingReply::ReadFailed { err } => Err(
                other_error(
                    exchange_message(
                        "failed to read remote control pairing response from"@,
                        url,
                        err@,
                    ),
                ),
            ),
            PairingReply::Response { status, headers, body, decoded } => self.started_pairing(
                shown_response(status, headers, body@),
                decoded,
                match decoded {
                    Ok(pairing) => rfc3339_timestamp(pairing.expires_at@),
                    Err(err) => Err(err@),
                },
            ),
        }
    }

    /// What is made of a response about a pairing's status.
    pub open spec fn checked_pairing(
        self,
        shown: ShownView,
        decoded: Result<RemoteControlPairingStatusResponse, String>,
    ) -> Result<RemoteControlPairingStatusResponse, ErrorView> {
        let url = self.remote_control_target.pair_status_url;
        if !is_success_status(shown.status) {
            Err(
                ErrorView {
                    kind: status_refusal_kind(shown.status),
                    message: response_message(
                        "remote control pairing status failed at"@,
                        url,
                        shown,
                    ),
                },
            )
        } else {
            match decoded {
                Err(err) => Err(
                    other_error(
                        response_message(
                            "failed to parse remote control pairing status response from"@,
                            url,
                            shown,
                        ) + ", decode error: "@ + err@,
                    ),
                ),
                Ok(response) => Ok(response),
            }
        }
    }

    /// What comes of asking for a pairing's status.
    pub open spec fn pairing_status_outcome(
        self,
        reply: PairingReply<RemoteControlPairingStatusResponse>,
    ) -> Result<RemoteControlPairingStatusResponse, ErrorView> {
        let url = self.remote_control_target.pair_status_url;
        match reply {
            PairingReply::SendFailed { err } => Err(
                other_error(
                    exchange_message(
                        "failed to check remote control pairing status at"@,
                        url,
                        err@,
                    ),
                ),
            ),
            PairingReply::ReadFailed { err } => Err(
                other_error(
                    exchange_message(
                        "failed to read remote control pairing status response from"@,
                        url,
                        err@,
                    ),
                ),
            ),
            PairingReply::Response { status, headers, body, decoded } => self.checked_pairing(
                shown_response(status, headers, body@),
                decoded,
            ),
        }
    }
}

/// A started pairing, or why there is none, with its texts.
pub open spec fn pairing_result(
    result: Result<RemoteControlPairingStartResponse, RemoteControlError>,
) -> Result<PairingStartView, ErrorView> {
    match result {
        Ok(response) => Ok(response@),
        Err(err) => Err(err@),
    }
}

/// A pairing's status, or why there is none, with its texts.
pub open spec fn status_result(
    result: Result<RemoteControlPairingStatusResponse, RemoteControlError>,
) -> Result<RemoteControlPairingStatusResponse, ErrorView> {
    match result {
        Ok(response) => Ok(response),
        Err(err) => Err(err@),
    }
}

/// What a time in RFC 3339 reads as, with the text of the error where it is refused.
pub open spec fn parsed_time(result: Result<i64, String>) -> Result<i64, Seq<char>> {
    match result {
        Ok(seconds) => Ok(seconds),
        Err(err) => Err(err@),
    }
}

impl RemoteControlEnrollment {
    /// The token to pair with at `now`. Pairing is unavailable where there is none.
    pub fn pairing_token_at(&self, now: Timestamp) -> (r: Option<&str>)
        ensures
            self@.pairing_token(now) == (match r {
                Some(token) => Some(token@),
                None => None,
            }),
    {
        if self.server_token_refresh_requirement_at(now)
            == RemoteControlServerTokenRefreshRequirement::Required {
            return None;
        }
        match &self.remote_control_token {
            Some(token) => Some(token.as_str()),
            None => None,
        }
    }

    /// The token to pair with now. Pairing is unavailable where there is none.
    pub fn pairing_token(&self) -> (r: Option<&str>)
        ensures
            exists|now: Timestamp|
                clock_says(now) && #[trigger] self@.pairing_token(now) == (match r {
                    Some(token) => Some(token@),
                    None => None,
                }),
    {
        self.pairing_token_at(read_clock())
    }

    /// The request with which a pairing is started.
    pub fn start_pairing_request(&self, token: &str, originator: String, user_agent: String) -> (r:
        PairingRequest)
        ensures
            r@ == self@.start_pairing_request(token@, originator@, user_agent@),
    {
        PairingRequest {
            url: self.remote_control_target.pair_url.clone(),
            timeout_secs: REMOTE_CONTROL_PAIRING_TIMEOUT_SECS,
            originator,
            user_agent,
            bearer_token: token.to_owned(),
        }
    }

    /// The request with which a pairing's status is asked for.
    pub fn pairing_status_request(&self, token: &str, originator: String, user_agent: String) -> (r:
        PairingRequest)
        ensures
            r@ == self@.pairing_status_request(token@, originator@, user_agent@),
    {
        PairingRequest {
            url: self.remote_control_target.pair_status_url.clone(),
            timeout_secs: REMOTE_CONTROL_PAIRING_TIMEOUT_SECS,
            originator,
            user_agent,
            bearer_token: token.to_owned(),
        }
    }

    /// Makes of a response to the start of a pairing what the client is told. `expires_at` is
    /// what the decoded response's expiry reads as.
    pub fn started_pairing(
        &self,
        shown: &ShownResponse,
        decoded: Result<StartRemoteControlPairingResponse, String>,
        expires_at: Result<i64, String>,
    ) -> (r: Result<RemoteControlPairingStartResponse, RemoteControlError>)
        ensures
            pairing_result(r) == self@.started_pairing(shown@, decoded, parsed_time(expires_at)),
    {
        let url = self.remote_control_target.pair_url.as_str();
        if !(200 <= shown.status && shown.status <= 299) {
            let kind = match shown.status {
                401 | 403 => ErrorKind::PermissionDenied,
                404 => ErrorKind::NotFound,
                _ => ErrorKind::Other,
            };
            return Err(
                RemoteControlError {
                    kind,
                    message: write_response_message("remote control pairing failed at", url, shown),
                },
            );
        }
        let pairing = match decoded {
            Ok(pairing) => pairing,
            Err(err) => {
                let mut message = write_response_message(
                    "failed to parse remote control pairing response from",
                    url,
                    shown,
                );
                message.append(", decode error: ");
                message.append(err.as_str());
                return Err(RemoteControlError::other(message));
            },
        };
        if !same_text(pairing.server_id.as_str(), self.server_id.as_str()) || !same_text(
            pairing.environment_id.as_str(),
            self.environment_id.as_str(),
        ) {
            let mut message =
                "remote control pairing returned mismatched enrollment: expected server_id=".to_owned();
            message.append(self.server_id.as_str());
            message.append(", environment_id=");
            message.append(self.environment_id.as_str());
            message.append("; got server_id=");
            message.append(pairing.server_id.as_str());
            message.append(", environment_id=");
            message.append(pairing.environment_id.as_str());
            return Err(RemoteControlError::other(message));
        }
        match expires_at {
            Ok(seconds) => Ok(
                RemoteControlPairingStartResponse {
                    pairing_code: pairing.pairing_code,
                    manual_pairing_code: pairing.manual_pairing_code,
                    environment_id: pairing.environment_id,
                    expires_at: seconds,
                },
            ),
            Err(err) => {
                let mut message = write_response_message(
                    "failed to parse remote control pairing response from",
                    url,
                    shown,
                );
                message.append(", expires_at parse error: ");
                message.append(err.as_str());
                Err(RemoteControlError { kind: ErrorKind::InvalidData, message })
            },
        }
    }

    /// Makes of what came of starting a pairing what the client is told.
    pub fn start_pairing_outcome(
        &self,
        reply: PairingReply<StartRemoteControlPairingResponse>,
    ) -> (r: Result<RemoteControlPairingStartResponse, RemoteControlError>)
        requires
            reply.is_valid(),
        ensures
            pairing_result(r) == self@.start_pairing_outcome(reply),
    {
        let url = self.remote_control_target.pair_url.as_str();
        match reply {
            PairingReply::SendFailed { err } => Err(
                RemoteControlError::other(
                    write_exchange_message(
                        "failed to start remote control pairing at",
                        url,
                        err.as_str(),
                    ),
                ),
            ),
            PairingReply::ReadFailed { err } => Err(
                RemoteControlError::other(
                    write_exchange_message(
                        "failed to read remote control pairing response from",
                        url,
                        err.as_str(),
                    ),
                ),
            ),
            PairingReply::Response { status, headers, body, decoded } => {
                let shown = show_response(status, &headers, body.as_slice());
                let expires_at = match &decoded {
                    Ok(pairing) => parse_rfc3339(pairing.expires_at.as_str()),
                    Err(err) => Err(err.clone()),
                };
                self.started_pairing(&shown, decoded, expires_at)
            },
        }
    }

    /// Makes of a response about a pairing's status what the client is told.
    pub fn checked_pairing(
        &self,
        shown: &ShownResponse,
        decoded: Result<RemoteControlPairingStatusResponse, String>,
    ) -> (r: Result<RemoteControlPairingStatusResponse, RemoteControlError>)
        ensures
            status_result(r) == self@.checked_pairing(shown@, decoded),
    {
        let url = self.remote_control_target.pair_status_url.as_str();
        if !(200 <= shown.status && shown.status <= 299) {
            let kind = match shown.status {
                401 | 403 => ErrorKind::PermissionDenied,
                404 | 410 => ErrorKind::InvalidInput,
                _ => ErrorKind::Other,
            };
            return Err(
                RemoteControlError {
                    kind,
                    message: write_response_message(
                        "remote control pairing status failed at",
                        url,
                        shown,
                    ),
                },
            );
        }
        match decoded {
            Ok(response) => Ok(response),
            Err(err) => {
                let mut message = write_response_message(
                    "failed to parse remote control pairing status response from",
                    url,
                    shown,
                );
                message.append(", decode error: ");
                message.append(err.as_str());
                Err(RemoteControlError::other(message))
            },
        }
    }

    /// Makes of what came of asking for a pairing's status what the client is told.
    pub fn pairing_status_outcome(
        &self,
        reply: PairingReply<RemoteControlPairingStatusResponse>,
    ) -> (r: Result<RemoteControlPairingStatusResponse, RemoteControlError>)
        requires
            reply.is_valid(),
        ensures
            status_result(r) == self@.pairing_status_outcome(reply),
    {
        let url = self.remote_control_target.pair_status_url.as_str();
        match reply {
            PairingReply::SendFailed { err } => Err(
                RemoteControlError::other(
                    write_exchange_message(
                        "failed to check remote control pairing status at",
                        url,
                        err.as_str(),
                    ),
                ),
            ),
            PairingReply::ReadFailed { err } => Err(
                RemoteControlError::other(
                    write_exchange_message(
                        "failed to read remote control pairing status response from",
                        url,
                        err.as_str(),
                    ),
                ),
            ),
            PairingReply::Response { status, headers, body, decoded } => {
                let shown = show_response(status, &headers, body.as_slice());
                self.checked_pairing(&shown, decoded)
            },
        }
    }
}

/// Pairing is unavailable exactly where a refresh of the token is required.
pub proof fn law_pairing_needs_a_live_token(enrollment: EnrollmentView, now: Timestamp)
    ensures
        enrollment.pairing_token(now) is None <==> enrollment.refresh_requirement(now)
            == RemoteControlServerTokenRefreshRequirement::Required,
        enrollment.pairing_token(now) is Some ==> enrollment.pairing_token(now)
            == enrollment.remote_control_token,
{
}

/// A pairing that a client is told of was accepted by the service, and belongs to the server and
/// the environment of the enrollment.
pub proof fn law_started_pairing_belongs_to_the_enrollment(
    enrollment: EnrollmentView,
    reply: PairingReply<StartRemoteControlPairingResponse>,
)
    requires
        enrollment.start_pairing_outcome(reply) is Ok,
    ensures
        enrollment.start_pairing_outcome(reply)->Ok_0.environment_id == enrollment.environment_id,
        reply matches PairingReply::Response { status, decoded: Ok(pairing), .. }
            && is_success_status(status) && pairing.server_id@ == enrollment.server_id
            && pairing.environment_id@ == enrollment.environment_id && rfc3339_timestamp(
            pairing.expires_at@,
        ) == Ok::<i64, Seq<char>>(enrollment.start_pairing_outcome(reply)->Ok_0.expires_at),
{
}

/// A pairing, or a question for its status, that the service refuses comes to a failure. One
/// refused for want of permission is said to be so, whichever of the two it was.
pub proof fn law_refused_pairing_fails(
    enrollment: EnrollmentView,
    shown: ShownView,
    started: Result<StartRemoteControlPairingResponse, String>,
    expires_at: Result<i64, Seq<char>>,
    checked: Result<RemoteControlPairingStatusResponse, String>,
)
    requires
        !is_success_status(shown.status),
    ensures
        enrollment.started_pairing(shown, started, expires_at) matches Err(err) && (err.kind
            == ErrorKind::PermissionDenied <==> shown.status == 401 || shown.status == 403),
        enrollment.checked_pairing(shown, checked) matches Err(err) && (err.kind
            == ErrorKind::PermissionDenied <==> shown.status == 401 || shown.status == 403),
{
}

/// How messages show two responses whose bodies are JSON objects that differ in their sensitive
/// values alone is the same, so that no message about a response tells anything of those values.
pub proof fn law_messages_do_not_depend_on_sensitive_values(
    status: u16,
    headers: HeaderMap,
    body: Seq<u8>,
    other: Seq<u8>,
    fields: Seq<(Seq<char>, Seq<char>)>,
    other_fields: Seq<(Seq<char>, Seq<char>)>,
)
    requires
        trim_spec(utf8_lossy(body)).len() > 0,
        trim_spec(utf8_lossy(other)).len() > 0,
        json_document(trim_spec(utf8_lossy(body))) == Some(Some(fields)),
        json_document(trim_spec(utf8_lossy(other))) == Some(Some(other_fields)),
        fields.len() == other_fields.len(),
        forall|i: int|
            0 <= i < fields.len() ==> (#[trigger] fields[i]).0 == other_fields[i].0 && (
            is_sensitive(fields[i].0) || fields[i].1 == other_fields[i].1),
    ensures
        shown_response(status, headers, body) == shown_response(status, headers, other),
{
    law_preview_does_not_depend_on_sensitive_values(
        utf8_lossy(body),
        utf8_lossy(other),
        fields,
        other_fields,
    );
}

/// The token to pair with is the enrollment's own, where it has not expired: there is none without
/// a token, without its expiry, or once that is reached.
pub proof fn law_the_pairing_token_is_the_live_one(enrollment: EnrollmentView, now: Timestamp)
    ensures
        match (enrollment.remote_control_token, enrollment.expires_at) {
            (Some(token), Some(expires_at)) => enrollment.pairing_token(now) == (
            if now.unix_nanos < expires_at.unix_nanos {
                Some(token)
            } else {
                None
            }),
            _ => enrollment.pairing_token(now) is None,
        },
{
}

/// A pairing is started at the target's address for pairings and its status asked for at the one
/// for their status, each within thirty seconds, in the caller's name and with the given token.
pub proof fn law_requests_go_to_their_addresses(
    enrollment: EnrollmentView,
    token: Seq<char>,
    originator: Seq<char>,
    user_agent: Seq<char>,
)
    ensures
        ({
            let started = enrollment.start_pairing_request(token, originator, user_agent);
            &&& started.url == enrollment.remote_control_target.pair_url
            &&& started.timeout_secs == 30
            &&& started.originator == originator
            &&& started.user_agent == user_agent
            &&& started.bearer_token == token
        }),
        ({
            let asked = enrollment.pairing_status_request(token, originator, user_agent);
            &&& asked.url == enrollment.remote_control_target.pair_status_url
            &&& asked.timeout_secs == 30
            &&& asked.originator == originator
            &&& asked.user_agent == user_agent
            &&& asked.bearer_token == token
        }),
{
}

/// A status that the service tells is told on as it is: an answer with a status of the two hundreds
/// that reads as `s` comes to `s`, claimed or not.
pub proof fn law_a_told_status_is_told_on(
    enrollment: EnrollmentView,
    status: u16,
    headers: HeaderMap,
    body: Vec<u8>,
    s: RemoteControlPairingStatusResponse,
)
    requires
        200 <= status <= 299,
    ensures
        ({
            let reply = PairingReply::Response { status, headers, body, decoded: Ok(s) };
            enrollment.pairing_status_outcome(reply) matches Ok(told) && told.claimed == s.claimed
        }),
{
}

/// A started pairing is told on with the service's codes: an answer with a status of the two
/// hundreds that names the enrollment's server and environment, and a time that can be read, comes
/// to its codes, its environment and that time.
pub proof fn law_a_started_pairing_is_told_on(
    enrollment: EnrollmentView,
    status: u16,
    headers: HeaderMap,
    body: Vec<u8>,
    pairing: StartRemoteControlPairingResponse,
    seconds: i64,
)
    requires
        200 <= status <= 299,
        pairing.server_id@ == enrollment.server_id,
        pairing.environment_id@ == enrollment.environment_id,
        rfc3339_timestamp(pairing.expires_at@) == Ok::<i64, Seq<char>>(seconds),
    ensures
        ({
            let reply = PairingReply::Response { status, headers, body, decoded: Ok(pairing) };
            enrollment.start_pairing_outcome(reply) matches Ok(told) && told.pairing_code
                == pairing.pairing_code@ && (match pairing.manual_pairing_code {
                Some(code) => told.manual_pairing_code == Some(code@),
                None => told.manual_pairing_code is None,
            }) && told.environment_id == pairing.environment_id@ && told.expires_at == seconds
        }),
{
}

/// A request that got no answer fails, with the address and the reason in the message.
pub proof fn law_unanswered_requests_fail(enrollment: EnrollmentView, err: String)
    ensures
        ({
            let url = enrollment.remote_control_target.pair_url;
            &&& enrollment.start_pairing_outcome(PairingReply::SendFailed { err }) matches Err(e)
                && e.kind == ErrorKind::Other && e.message
                == "failed to start remote control pairing at"@ + " `"@ + url + "`: "@ + err@
            &&& enrollment.start_pairing_outcome(PairingReply::ReadFailed { err }) matches Err(e)
                && e.kind == ErrorKind::Other && e.message
                == "failed to read remote control pairing response from"@ + " `"@ + url + "`: "@
                + err@
        }),
        ({
            let url = enrollment.remote_control_target.pair_status_url;
            &&& enrollment.pairing_status_outcome(PairingReply::SendFailed { err }) matches Err(e)
                && e.kind == ErrorKind::Other && e.message
                == "failed to check remote control pairing status at"@ + " `"@ + url + "`: "@ + err@
            &&& enrollment.pairing_status_outcome(PairingReply::ReadFailed { err }) matches Err(e)
                && e.kind == ErrorKind::Other && e.message
                == "failed to read remote control pairing status response from"@ + " `"@ + url
                + "`: "@ + err@
        }),
{
}

/// A refused request fails, whatever its body reads as, by the kind that its status has, with the
/// address, the status, the headers and the preview of the body in the message.
pub proof fn law_refusals_fail_by_their_status(
    enrollment: EnrollmentView,
    status: u16,
    headers: HeaderMap,
    body: Vec<u8>,
    started: Result<StartRemoteControlPairingResponse, String>,
    checked: Result<RemoteControlPairingStatusResponse, String>,
)
    requires
        status < 200 || status > 299,
    ensures
        ({
            let told = "`: HTTP "@ + status_text(status) + ", "@ + formatted_headers(headers)
                + ", body: "@ + body_preview(body@);
            let start = PairingReply::Response { status, headers, body, decoded: started };
            let ask = PairingReply::Response { status, headers, body, decoded: checked };
            &&& enrollment.start_pairing_outcome(start) matches Err(e) && e.message
                == "remote control pairing failed at `"@ + enrollment.remote_control_target.pair_url
                + told && (e.kind == ErrorKind::PermissionDenied <==> status == 401 || status
                == 403) && (e.kind == ErrorKind::NotFound <==> status == 404) && (e.kind
                == ErrorKind::Other <==> status != 401 && status != 403 && status != 404)
            &&& enrollment.pairing_status_outcome(ask) matches Err(e) && e.message
                == "remote control pairing status failed at `"@
                + enrollment.remote_control_target.pair_status_url + told && (e.kind
                == ErrorKind::PermissionDenied <==> status == 401 || status == 403) && (e.kind
                == ErrorKind::InvalidInput <==> status == 404 || status == 410) && (e.kind
                == ErrorKind::Other <==> status != 401 && status != 403 && status != 404 && status
                != 410)
        }),
{
    reveal_strlit("remote control pairing failed at");
    reveal_strlit("remote control pairing failed at `");
    reveal_strlit("remote control pairing status failed at");
    reveal_strlit("remote control pairing status failed at `");
    reveal_strlit(" `");
    let told = "`: HTTP "@ + status_text(status) + ", "@ + formatted_headers(headers) + ", body: "@
        + body_preview(body@);
    let shown = shown_response(status, headers, body@);
    let url = enrollment.remote_control_target.pair_url;
    assert(response_message("remote control pairing failed at"@, url, shown)
        =~= "remote control pairing failed at `"@ + url + told);
    let status_url = enrollment.remote_control_target.pair_status_url;
    assert(response_message("remote control pairing status failed at"@, status_url, shown)
        =~= "remote control pairing status failed at `"@ + status_url + told);
}

/// An answer that the service accepted and that cannot be used fails: one that does not read, one
/// about another server or environment, and one with a time that does not read, in this order.
pub proof fn law_unusable_answers_fail(
    enrollment: EnrollmentView,
    status: u16,
    headers: HeaderMap,
    body: Vec<u8>,
    pairing: StartRemoteControlPairingResponse,
    why: String,
)
    requires
        200 <= status <= 299,
    ensures
        ({
            let told = "`: HTTP "@ + status_text(status) + ", "@ + formatted_headers(headers)
                + ", body: "@ + body_preview(body@);
            let url = enrollment.remote_control_target.pair_url;
            let status_url = enrollment.remote_control_target.pair_status_url;
            let unread = PairingReply::Response { status, headers, body, decoded: Err(why) };
            let unread_status = PairingReply::Response { status, headers, body, decoded: Err(why) };
            let read = PairingReply::Response { status, headers, body, decoded: Ok(pairing) };
            &&& enrollment.start_pairing_outcome(unread) matches Err(e) && e.kind
                == ErrorKind::Other && e.message
                == "failed to parse remote control pairing response from `"@ + url + told
                + ", decode error: "@ + why@
            &&& enrollment.pairing_status_outcome(unread_status) matches Err(e) && e.kind
                == ErrorKind::Other && e.message
                == "failed to parse remote control pairing status response from `"@ + status_url
                + told + ", decode error: "@ + why@
            &&& pairing.server_id@ != enrollment.server_id || pairing.environment_id@
                != enrollment.environment_id ==> (enrollment.start_pairing_outcome(read) matches Err(e)
                && e.kind == ErrorKind::Other && e.message
                == "remote control pairing returned mismatched enrollment: expected server_id="@
                + enrollment.server_id + ", environment_id="@ + enrollment.environment_id
                + "; got server_id="@ + pairing.server_id@ + ", environment_id="@
                + pairing.environment_id@)
            &&& pairing.server_id@ == enrollment.server_id && pairing.environment_id@
                == enrollment.environment_id ==> (rfc3339_timestamp(pairing.expires_at@) matches Err(
                reason,
            ) ==> (enrollment.start_pairing_outcome(read) matches Err(e) && e.kind
                == ErrorKind::InvalidData && e.message
                == "failed to parse remote control pairing response from `"@ + url + told
                + ", expires_at parse error: "@ + reason))
        }),
{
    reveal_strlit("failed to parse remote control pairing response from");
    reveal_strlit("failed to parse remote control pairing response from `");
    reveal_strlit("failed to parse remote control pairing status response from");
    reveal_strlit("failed to parse remote control pairing status response from `");
    reveal_strlit(" `");
    let told = "`: HTTP "@ + status_text(status) + ", "@ + formatted_headers(headers) + ", body: "@
        + body_preview(body@);
    let shown = shown_response(status, headers, body@);
    let url = enrollment.remote_control_target.pair_url;
    assert(response_message("failed to parse remote control pairing response from"@, url, shown)
        =~= "failed to parse remote control pairing response from `"@ + url + told);
    let status_url = enrollment.remote_control_target.pair_status_url;
    assert(response_message(
        "failed to parse remote control pairing status response from"@,
        status_url,
        shown,
    ) =~= "failed to parse remote control pairing status response from `"@ + status_url + told);
}

/// What a client gets is shown as it is: results succeed and fail as they did, with the same codes,
/// times, kinds and messages.
pub proof fn law_pairing_results_are_shown_as_they_are(
    started: RemoteControlPairingStartResponse,
    checked: RemoteControlPairingStatusResponse,
    err: RemoteControlError,
    seconds: i64,
    why: String,
)
    ensures
        pairing_result(Ok(started)) matches Ok(told) && told.pairing_code == started.pairing_code@
            && told.environment_id == started.environment_id@ && told.expires_at
            == started.expires_at && (match started.manual_pairing_code {
            Some(code) => told.manual_pairing_code == Some(code@),
            None => told.manual_pairing_code is None,
        }),
        pairing_result(Err(err)) matches Err(told) && told.kind == err.kind && told.message
            == err.message@,
        status_result(Ok(checked)) matches Ok(told) && told.claimed == checked.claimed,
        status_result(Err(err)) matches Err(told) && told.kind == err.kind && told.message
            == err.message@,
        parsed_time(Ok(seconds)) == Ok::<i64, Seq<char>>(seconds),
        parsed_time(Err(why)) == Err::<i64, Seq<char>>(why@),
{
}

/// A request and a shown response are shown with each field under its own name.
pub proof fn law_pairing_views_hold_each_field(request: PairingRequest, shown: ShownResponse)
    ensures
        request@.url == request.url@,
        request@.timeout_secs == request.timeout_secs,
        request@.originator == request.originator@,
        request@.user_agent == request.user_agent@,
        request@.bearer_token == request.bearer_token@,
        shown@.status == shown.status,
        shown@.status_text == shown.status_text@,
        shown@.headers == shown.headers@,
        shown@.body_preview == shown.body_preview@,
{
}

/// A response is shown by its own status, headers and body.
pub proof fn law_a_response_is_shown_by_its_parts(status: u16, headers: HeaderMap, body: Seq<u8>)
    ensures
        shown_response(status, headers, body).status == status,
        shown_response(status, headers, body).status_text == status_text(status),
        shown_response(status, headers, body).headers == formatted_headers(headers),
        shown_response(status, headers, body).body_preview == body_preview(body),
{
}

/// What is made of an answer goes by what is shown of it: with a status of the two hundreds it is
/// what the answer reads as, and else a failure that holds all that is shown.
pub proof fn law_answers_go_by_what_is_shown(
    enrollment: EnrollmentView,
    shown: ShownView,
    pairing: StartRemoteControlPairingResponse,
    started: Result<StartRemoteControlPairingResponse, String>,
    seconds: i64,
    expires_at: Result<i64, Seq<char>>,
    s: RemoteControlPairingStatusResponse,
    checked: Result<RemoteControlPairingStatusResponse, String>,
    why: String,
    reason: Seq<char>,
)
    ensures
        ({
            let url = enrollment.remote_control_target.pair_url;
            let status_url = enrollment.remote_control_target.pair_status_url;
            let told = "`: HTTP "@ + shown.status_text + ", "@ + shown.headers + ", body: "@
                + shown.body_preview;
            let ok = 200 <= shown.status <= 299;
            let same = pairing.server_id@ == enrollment.server_id && pairing.environment_id@
                == enrollment.environment_id;
            &&& !ok ==> (enrollment.started_pairing(shown, started, expires_at) matches Err(e)
                && e.message == "remote control pairing failed at `"@ + url + told && e.kind == (
            if shown.status == 401 || shown.status == 403 {
                ErrorKind::PermissionDenied
            } else if shown.status == 404 {
                ErrorKind::NotFound
            } else {
                ErrorKind::Other
            }))
            &&& !ok ==> (enrollment.checked_pairing(shown, checked) matches Err(e) && e.message
                == "remote control pairing status failed at `"@ + status_url + told && e.kind == (
            if shown.status == 401 || shown.status == 403 {
                ErrorKind::PermissionDenied
            } else if shown.status == 404 || shown.status == 410 {
                ErrorKind::InvalidInput
            } else {
                ErrorKind::Other
            }))
            &&& ok ==> enrollment.checked_pairing(shown, Ok(s)) == Ok::<
                RemoteControlPairingStatusResponse,
                ErrorView,
            >(s)
            &&& ok ==> (enrollment.checked_pairing(shown, Err(why)) matches Err(e) && e.kind
                == ErrorKind::Other && e.message
                == "failed to parse remote control pairing status response from `"@ + status_url
                + told + ", decode error: "@ + why@)
            &&& ok ==> (enrollment.started_pairing(shown, Err(why), expires_at) matches Err(e)
                && e.kind == ErrorKind::Other && e.message
                == "failed to parse remote control pairing response from `"@ + url + told
                + ", decode error: "@ + why@)
            &&& ok && !same ==> (enrollment.started_pairing(
                shown,
                Ok(pairing),
                expires_at,
            ) matches Err(e) && e.kind == ErrorKind::Other && e.message
                == "remote control pairing returned mismatched enrollment: expected server_id="@
                + enrollment.server_id + ", environment_id="@ + enrollment.environment_id
                + "; got server_id="@ + pairing.server_id@ + ", environment_id="@
                + pairing.environment_id@)
            &&& ok && same ==> (enrollment.started_pairing(
                shown,
                Ok(pairing),
                Err(reason),
            ) matches Err(e) && e.kind == ErrorKind::InvalidData && e.message
                == "failed to parse remote control pairing response from `"@ + url + told
                + ", expires_at parse error: "@ + reason)
            &&& ok && same ==> (enrollment.started_pairing(
                shown,
                Ok(pairing),
                Ok(seconds),
            ) matches Ok(client) && client.pairing_code == pairing.pairing_code@
                && client.environment_id == pairing.environment_id@ && client.expires_at == seconds
                && (match pairing.manual_pairing_code {
                Some(code) => client.manual_pairing_code == Some(code@),
                None => client.manual_pairing_code is None,
            }))
        }),
{
    reveal_strlit("remote control pairing failed at");
    reveal_strlit("remote control pairing failed at `");
    reveal_strlit("remote control pairing status failed at");
    reveal_strlit("remote control pairing status failed at `");
    reveal_strlit("failed to parse remote control pairing response from");
    reveal_strlit("failed to parse remote control pairing response from `");
    reveal_strlit("failed to parse remote control pairing status response from");
    reveal_strlit("failed to parse remote control pairing status response from `");
    reveal_strlit(" `");
    let url = enrollment.remote_control_target.pair_url;
    let status_url = enrollment.remote_control_target.pair_status_url;
    let told = "`: HTTP "@ + shown.status_text + ", "@ + shown.headers + ", body: "@
        + shown.body_preview;
    assert(response_message("remote control pairing failed at"@, url, shown)
        =~= "remote control pairing failed at `"@ + url + told);
    assert(response_message("remote control pairing status failed at"@, status_url, shown)
        =~= "remote control pairing status failed at `"@ + status_url + told);
    assert(response_message("failed to parse remote control pairing response from"@, url, shown)
        =~= "failed to parse remote control pairing response from `"@ + url + told);
    assert(response_message(
        "failed to parse remote control pairing status response from"@,
        status_url,
        shown,
    ) =~= "failed to parse remote control pairing status response from `"@ + status_url + told);
}

} // verus!

//! A server's enrollment for remote control, and when its token has to be refreshed.

use vstd::prelude::*;

use crate::clock::{clock_says, read_clock, Timestamp};
use crate::protocol::{copy_optional, optional_text};

verus! {

/// A token that expires within this many nanoseconds, five minutes, is refreshed ahead of time.
pub const REMOTE_CONTROL_SERVER_TOKEN_REFRESH_SKEW_NANOS: i128 = 5 * 60 * 1_000_000_000;

/// Where a remote control service is reached.
#[derive(Debug, PartialEq, Eq)]
pub struct RemoteControlTarget {
    pub websocket_url: String,
    pub enroll_url: String,
    pub pair_url: String,
    pub pair_status_url: String,
}

/// A remote control target, with its texts.
pub struct TargetView {
    pub websocket_url: Seq<char>,
    pub enroll_url: Seq<char>,
    pub pair_url: Seq<char>,
    pub pair_status_url: Seq<char>,
}

impl View for RemoteControlTarget {
    type V = TargetView;

    open spec fn view(&self) -> TargetView {
        TargetView {
            websocket_url: self.websocket_url@,
            enroll_url: self.enroll_url@,
            pair_url: self.pair_url@,
            pair_status_url: self.pair_status_url@,
        }
    }
}

impl Clone for RemoteControlTarget {
    fn clone(&self) -> (r: Self)
        ensures
            r@ == self@,
    {
        RemoteControlTarget {
            websocket_url: self.websocket_url.clone(),
            enroll_url: self.enroll_url.clone(),
            pair_url: self.pair_url.clone(),
            pair_status_url: self.pair_status_url.clone(),
        }
    }
}

/// A server's enrollment with a remote control service.
#[derive(Debug, PartialEq, Eq)]
pub struct RemoteControlEnrollment {
    pub remote_control_target: RemoteControlTarget,
    pub account_id: String,
    pub environment_id: String,
    pub server_id: String,
    pub server_name: String,
    pub remote_control_token: Option<String>,
    pub expires_at: Option<Timestamp>,
    pub next_refresh_at: Option<Timestamp>,
}

/// An enrollment, with its texts.
pub struct EnrollmentView {
    pub remote_control_target: TargetView,
    pub account_id: Seq<char>,
    pub environment_id: Seq<char>,
    pub server_id: Seq<char>,
    pub server_name: Seq<char>,
    pub remote_control_token: Option<Seq<char>>,
    pub expires_at: Option<Timestamp>,
    pub next_refresh_at: Option<Timestamp>,
}

impl View for RemoteControlEnrollment {
    type V = EnrollmentView;

    open spec fn view(&self) -> EnrollmentView {
        EnrollmentView {
            remote_control_target: self.remote_control_target@,
            account_id: self.account_id@,
            environment_id: self.environment_id@,
            server_id: self.server_id@,
            server_name: self.server_name@,
            remote_control_token: optional_text(self.remote_control_token),
            expires_at: self.expires_at,
            next_refresh_at: self.next_refresh_at,
        }
    }
}

impl Clone for RemoteControlEnrollment {
    fn clone(&self) -> (r: Self)
        ensures
            r@ == self@,
    {
        RemoteControlEnrollment {
            remote_control_target: self.remote_control_target.clone(),
            account_id: self.account_id.clone(),
            environment_id: self.environment_id.clone(),
            server_id: self.server_id.clone(),
            server_name: self.server_name.clone(),
            remote_control_token: copy_optional(&self.remote_control_token),
            expires_at: self.expires_at,
            next_refresh_at: self.next_refresh_at,
        }
    }
}

/// Whether a server token has to be refreshed.
#[derive(Clone, Copy, Debug, PartialEq, Eq, Structural)]
pub enum RemoteControlServerTokenRefreshRequirement {
    /// There is no token that can be used.
    Required,
    /// The token can be used and expires soon.
    Proactive,
    /// The token can be used.
    NotNeeded,
}

impl EnrollmentView {
    /// Whether there is a token that has not expired at `now`.
    pub open spec fn has_live_token(self, now: Timestamp) -> bool {
        &&& self.remote_control_token is Some
        &&& self.expires_at matches Some(expires_at) && expires_at.unix_nanos > now.unix_nanos
    }

    /// Whether the token expires only after the time in which it is refreshed ahead.
    pub open spec fn expires_late(self, now: Timestamp) -> bool {
        self.expires_at matches Some(expires_at) && expires_at.unix_nanos > now.unix_nanos
            + REMOTE_CONTROL_SERVER_TOKEN_REFRESH_SKEW_NANOS
    }

    /// Whether the next refresh is put off to a time after `now`.
    pub open spec fn refresh_is_put_off(self, now: Timestamp) -> bool {
        self.next_refresh_at matches Some(next) && next.unix_nanos > now.unix_nanos
    }

    /// Whether the token has to be refreshed at `now`.
    pub open spec fn refresh_requirement(
        self,
        now: Timestamp,
    ) -> RemoteControlServerTokenRefreshRequirement {
        if !self.has_live_token(now) {
            RemoteControlServerTokenRefreshRequirement::Required
        } else if self.expires_late(now) || self.refresh_is_put_off(now) {
            RemoteControlServerTokenRefreshRequirement::NotNeeded
        } else {
            RemoteControlServerTokenRefreshRequirement::Proactive
        }
    }

    /// The enrollment without its token.
    pub open spec fn without_token(self) -> EnrollmentView {
        EnrollmentView { remote_control_token: None, expires_at: None, ..self }
    }
}

impl RemoteControlEnrollment {
    /// Whether the token has to be refreshed now.
    pub fn server_token_refresh_requirement(&self) -> (r:
        RemoteControlServerTokenRefreshRequirement)
        ensures
            exists|now: Timestamp|
                clock_says(now) && r == #[trigger] self@.refresh_requirement(now),
    {
        self.server_token_refresh_requirement_at(read_clock())
    }

    /// Whether the token has to be refreshed, or better is, now.
    pub fn should_refresh_server_token(&self) -> (r: bool)
        ensures
            exists|now: Timestamp|
                clock_says(now) && r == (#[trigger] self@.refresh_requirement(now)
                    != RemoteControlServerTokenRefreshRequirement::NotNeeded),
    {
        self.server_token_refresh_requirement()
            != RemoteControlServerTokenRefreshRequirement::NotNeeded
    }

    /// Whether the token has to be refreshed at `now`.
    pub fn server_token_refresh_requirement_at(&self, now: Timestamp) -> (r:
        RemoteControlServerTokenRefreshRequirement)
        ensures
            r == self@.refresh_requirement(now),
    {
        if self.remote_control_token.is_none() {
            return RemoteControlServerTokenRefreshRequirement::Required;
        }
        let expires_at = match self.expires_at {
            Some(expires_at) => expires_at,
            None => {
                return RemoteControlServerTokenRefreshRequirement::Required;
            },
        };
        if expires_at.unix_nanos <= now.unix_nanos {
            return RemoteControlServerTokenRefreshRequirement::Required;
        }
        // Written so that no time is too late to add the skew to it.
        if now.unix_nanos <= i128::MAX - REMOTE_CONTROL_SERVER_TOKEN_REFRESH_SKEW_NANOS && expires_at.unix_nanos
            > now.unix_nanos + REMOTE_CONTROL_SERVER_TOKEN_REFRESH_SKEW_NANOS {
            return RemoteControlServerTokenRefreshRequirement::NotNeeded;
        }
        match self.next_refresh_at {
            Some(next_refresh_at) => {
                if next_refresh_at.unix_nanos > now.unix_nanos {
                    RemoteControlServerTokenRefreshRequirement::NotNeeded
                } else {
                    RemoteControlServerTokenRefreshRequirement::Proactive
                }
            },
            None => RemoteControlServerTokenRefreshRequirement::Proactive,
        }
    }

    /// Forgets the token and when it expires.
    pub fn clear_server_token(&mut self)
        ensures
            final(self)@ == old(self)@.without_token(),
    {
        self.remote_control_token = None;
        self.expires_at = None;
    }
}

/// Without a token, or without knowing when it expires, a refresh is required at any time.
pub proof fn law_no_token_requires_refresh(enrollment: EnrollmentView, now: Timestamp)
    requires
        enrollment.remote_control_token is None || enrollment.expires_at is None,
    ensures
        enrollment.refresh_requirement(now) == RemoteControlServerTokenRefreshRequirement::Required,
{
}

/// Once the token is cleared, a refresh is required at any time.
pub proof fn law_cleared_token_requires_refresh(enrollment: EnrollmentView, now: Timestamp)
    ensures
        enrollment.without_token().refresh_requirement(now)
            == RemoteControlServerTokenRefreshRequirement::Required,
{
}

/// A refresh that is required stays required as time goes on.
pub proof fn law_required_refresh_stays_required(
    enrollment: EnrollmentView,
    now: Timestamp,
    later: Timestamp,
)
    requires
        now.unix_nanos <= later.unix_nanos,
        enrollment.refresh_requirement(now) == RemoteControlServerTokenRefreshRequirement::Required,
    ensures
        enrollment.refresh_requirement(later)
            == RemoteControlServerTokenRefreshRequirement::Required,
{
}

/// A refresh that is wanted, ahead of time or not, stays wanted as time goes on.
pub proof fn law_wanted_refresh_stays_wanted(
    enrollment: EnrollmentView,
    now: Timestamp,
    later: Timestamp,
)
    requires
        now.unix_nanos <= later.unix_nanos,
        enrollment.refresh_requirement(now)
            != RemoteControlServerTokenRefreshRequirement::NotNeeded,
    ensures
        enrollment.refresh_requirement(later)
            != RemoteControlServerTokenRefreshRequirement::NotNeeded,
{
}

/// Putting off the next refresh puts off only one that is ahead of time: a required refresh stays
/// required.
pub proof fn law_put_off_refresh_is_still_required(
    enrollment: EnrollmentView,
    next_refresh_at: Option<Timestamp>,
    now: Timestamp,
)
    ensures
        ({
            let put_off = EnrollmentView { next_refresh_at, ..enrollment };
            (put_off.refresh_requirement(now)
                == RemoteControlServerTokenRefreshRequirement::Required) == (
            enrollment.refresh_requirement(now)
                == RemoteControlServerTokenRefreshRequirement::Required)
        }),
{
}

/// When a token has to be refreshed, told by the times alone, in nanoseconds: at once where there
/// is no token or it has expired, ahead of time where it expires within five minutes and the next
/// refresh is not put off, and not yet elsewhere.
pub proof fn law_refresh_goes_by_the_times(enrollment: EnrollmentView, now: Timestamp)
    ensures
        match (enrollment.remote_control_token, enrollment.expires_at) {
            (Some(_), Some(expires_at)) => {
                let left = expires_at.unix_nanos - now.unix_nanos;
                let put_off = enrollment.next_refresh_at matches Some(next) && next.unix_nanos
                    - now.unix_nanos > 0;
                &&& left <= 0 ==> enrollment.refresh_requirement(now)
                    == RemoteControlServerTokenRefreshRequirement::Required
                &&& 0 < left <= 300_000_000_000 && !put_off ==> enrollment.refresh_requirement(now)
                    == RemoteControlServerTokenRefreshRequirement::Proactive
                &&& 0 < left && (left > 300_000_000_000 || put_off)
                    ==> enrollment.refresh_requirement(now)
                    == RemoteControlServerTokenRefreshRequirement::NotNeeded
            },
            _ => enrollment.refresh_requirement(now)
                == RemoteControlServerTokenRefreshRequirement::Required,
        },
{
}

/// Clearing a token forgets it and its expiry and keeps everything else, the time to which the next
/// refresh is put off included.
pub proof fn law_clearing_forgets_the_token_alone(enrollment: EnrollmentView)
    ensures
        enrollment.without_token().remote_control_token is None,
        enrollment.without_token().expires_at is None,
        enrollment.without_token().next_refresh_at == enrollment.next_refresh_at,
        enrollment.without_token().remote_control_target == enrollment.remote_control_target,
        enrollment.without_token().account_id == enrollment.account_id,
        enrollment.without_token().environment_id == enrollment.environment_id,
        enrollment.without_token().server_id == enrollment.server_id,
        enrollment.without_token().server_name == enrollment.server_name,
{
}

/// The view of an enrollment holds the text of each field under the field's own name.
pub proof fn law_enrollment_view_holds_each_field(enrollment: RemoteControlEnrollment)
    ensures
        enrollment@.remote_control_target.websocket_url
            == enrollment.remote_control_target.websocket_url@,
        enrollment@.remote_control_target.enroll_url
            == enrollment.remote_control_target.enroll_url@,
        enrollment@.remote_control_target.pair_url == enrollment.remote_control_target.pair_url@,
        enrollment@.remote_control_target.pair_status_url
            == enrollment.remote_control_target.pair_status_url@,
        enrollment@.account_id == enrollment.account_id@,
        enrollment@.environment_id == enrollment.environment_id@,
        enrollment@.server_id == enrollment.server_id@,
        enrollment@.server_name == enrollment.server_name@,
        enrollment.remote_control_token matches Some(token)
            ==> enrollment@.remote_control_token == Some(token@),
        enrollment.remote_control_token is None ==> enrollment@.remote_control_token is None,
        enrollment@.expires_at == enrollment.expires_at,
        enrollment@.next_refresh_at == enrollment.next_refresh_at,
{
}

} // verus!

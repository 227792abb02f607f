use std::collections::HashMap;

use codex_session_kit::clock::Timestamp;
use codex_session_kit::remote_control::enrollment::{
    RemoteControlEnrollment, RemoteControlServerTokenRefreshRequirement, RemoteControlTarget,
};
use codex_session_kit::remote_control::error::{ErrorKind, RemoteControlError};
use codex_session_kit::remote_control::persistence::{
    loaded_enrollment, plan_enrollment_load, plan_enrollment_update, updated_enrollment,
    EnrollmentUpdate, RemoteControlEnrollmentRecord,
};

type Key = (String, String, Option<String>);

/// A store of enrollments in memory.
struct Store {
    records: HashMap<Key, RemoteControlEnrollmentRecord>,
}

impl Store {
    fn new() -> Self {
        Store {
            records: HashMap::new(),
        }
    }

    fn update(
        &mut self,
        target: &RemoteControlTarget,
        account_id: &str,
        client: Option<&str>,
        enrollment: Option<&RemoteControlEnrollment>,
    ) -> Result<(), RemoteControlError> {
        match plan_enrollment_update(true, target, account_id, client, enrollment, None)? {
            EnrollmentUpdate::Upsert { record } => {
                let key = (
                    record.websocket_url.clone(),
                    record.account_id.clone(),
                    record.app_server_client_name.clone(),
                );
                self.records.insert(key, record);
            }
            EnrollmentUpdate::Delete { key } => {
                self.records.remove(&(
                    key.websocket_url,
                    key.account_id,
                    key.app_server_client_name,
                ));
            }
        }
        updated_enrollment(Ok(()))
    }

    fn load(
        &mut self,
        target: &RemoteControlTarget,
        account_id: &str,
        client: Option<&str>,
    ) -> Result<Option<RemoteControlEnrollment>, RemoteControlError> {
        let key = plan_enrollment_load(true, target, account_id, client)?;
        let key = (
            key.websocket_url,
            key.account_id,
            key.app_server_client_name,
        );
        let record = self
            .records
            .get(&key)
            .map(|record| RemoteControlEnrollmentRecord {
                websocket_url: record.websocket_url.clone(),
                account_id: record.account_id.clone(),
                app_server_client_name: record.app_server_client_name.clone(),
                server_id: record.server_id.clone(),
                environment_id: record.environment_id.clone(),
                server_name: record.server_name.clone(),
                remote_control_enabled: record.remote_control_enabled,
            });
        loaded_enrollment(target, Ok(record))
    }
}

fn target(base: &str) -> RemoteControlTarget {
    RemoteControlTarget {
        websocket_url: format!("{base}/server"),
        enroll_url: format!("{base}/server/enroll"),
        pair_url: format!("{base}/server/pair"),
        pair_status_url: format!("{base}/server/pair/status"),
    }
}

fn enrollment(target: &RemoteControlTarget, name: &str) -> RemoteControlEnrollment {
    RemoteControlEnrollment {
        remote_control_target: target.clone(),
        account_id: "account-a".to_string(),
        environment_id: format!("env_{name}"),
        server_id: format!("srv_e_{name}"),
        server_name: format!("{name}-server"),
        remote_control_token: None,
        expires_at: None,
        next_refresh_at: None,
    }
}

#[test]
fn persisted_remote_control_enrollment_round_trips_by_target_and_account() {
    let mut state_db = Store::new();
    let first_target = target("https://chatgpt.com/remote/control");
    let second_target = target("https://api.chatgpt-staging.com/other/control");
    let first_enrollment = enrollment(&first_target, "first");
    let second_enrollment = enrollment(&second_target, "second");

    state_db
        .update(
            &first_target,
            "account-a",
            Some("desktop-client"),
            Some(&first_enrollment),
        )
        .expect("first enrollment should persist");
    state_db
        .update(
            &second_target,
            "account-a",
            Some("desktop-client"),
            Some(&second_enrollment),
        )
        .expect("second enrollment should persist");

    assert_eq!(
        state_db
            .load(&first_target, "account-a", Some("desktop-client"))
            .expect("first enrollment should load"),
        Some(first_enrollment.clone())
    );
    assert_eq!(
        state_db
            .load(&first_target, "account-b", Some("desktop-client"))
            .expect("missing account should load"),
        None
    );
    assert_eq!(
        state_db
            .load(&second_target, "account-a", Some("desktop-client"))
            .expect("second enrollment should load"),
        Some(second_enrollment)
    );
}

#[test]
fn clearing_persisted_remote_control_enrollment_removes_only_matching_entry() {
    let mut state_db = Store::new();
    let first_target = target("https://chatgpt.com/remote/control");
    let second_target = target("https://api.chatgpt-staging.com/other/control");
    let first_enrollment = enrollment(&first_target, "first");
    let second_enrollment = enrollment(&second_target, "second");

    state_db
        .update(&first_target, "account-a", None, Some(&first_enrollment))
        .expect("first enrollment should persist");
    state_db
        .update(&second_target, "account-a", None, Some(&second_enrollment))
        .expect("second enrollment should persist");

    state_db
        .update(&first_target, "account-a", None, None)
        .expect("matching enrollment should clear");

    assert_eq!(
        state_db
            .load(&first_target, "account-a", None)
            .expect("cleared enrollment should load"),
        None
    );
    assert_eq!(
        state_db
            .load(&second_target, "account-a", None)
            .expect("remaining enrollment should load"),
        Some(second_enrollment)
    );
}

#[test]
fn a_token_is_not_persisted() {
    let mut state_db = Store::new();
    let target = target("https://chatgpt.com/remote/control");
    let mut with_token = enrollment(&target, "first");
    with_token.remote_control_token = Some("secret".to_string());
    with_token.expires_at = Some(Timestamp { unix_nanos: 1 });
    with_token.next_refresh_at = Some(Timestamp { unix_nanos: 2 });
    state_db
        .update(&target, "account-a", None, Some(&with_token))
        .expect("enrollment should persist");
    assert_eq!(
        state_db.load(&target, "account-a", None).expect("enrollment should load"),
        Some(enrollment(&target, "first"))
    );
}

#[test]
fn the_record_holds_what_was_asked_for() {
    let target = target("https://chatgpt.com");
    let update = plan_enrollment_update(
        true,
        &target,
        "account-a",
        Some("desktop-client"),
        Some(&enrollment(&target, "first")),
        Some(true),
    );
    assert_eq!(
        update,
        Ok(EnrollmentUpdate::Upsert {
            record: RemoteControlEnrollmentRecord {
                websocket_url: "https://chatgpt.com/server".to_string(),
                account_id: "account-a".to_string(),
                app_server_client_name: Some("desktop-client".to_string()),
                server_id: "srv_e_first".to_string(),
                environment_id: "env_first".to_string(),
                server_name: "first-server".to_string(),
                remote_control_enabled: Some(true),
            }
        })
    );
}

#[test]
fn an_enrollment_of_another_account_is_refused() {
    let target = target("https://chatgpt.com");
    let refused = plan_enrollment_update(
        true,
        &target,
        "account-b",
        None,
        Some(&enrollment(&target, "first")),
        None,
    );
    assert_eq!(
        refused,
        Err(RemoteControlError {
            kind: ErrorKind::Other,
            message: "enrollment account_id does not match expected account_id `account-b`"
                .to_string(),
        })
    );
}

#[test]
fn without_a_store_nothing_is_kept_or_loaded() {
    let target = target("https://chatgpt.com");
    assert_eq!(
        plan_enrollment_load(false, &target, "account-a", Some("say \"hi\"")),
        Err(RemoteControlError {
            kind: ErrorKind::NotFound,
            message: "remote control enrollment cache unavailable because sqlite state db is disabled: websocket_url=https://chatgpt.com/server, account_id=account-a, app_server_client_name=Some(\"say \\\"hi\\\"\")".to_string(),
        })
    );
    let refused = |enrollment: Option<&RemoteControlEnrollment>, shown: &str| {
        assert_eq!(
            plan_enrollment_update(false, &target, "account-b", None, enrollment, None),
            Err(RemoteControlError {
                kind: ErrorKind::NotFound,
                message: format!("remote control enrollment persistence unavailable because sqlite state db is disabled: websocket_url=https://chatgpt.com/server, account_id=account-b, app_server_client_name=None, has_enrollment={shown}"),
            })
        );
    };
    refused(None, "false");
    refused(Some(&enrollment(&target, "first")), "true");
}

#[test]
fn failures_of_the_store_are_passed_on() {
    let target = target("https://chatgpt.com");
    let failure = || RemoteControlError {
        kind: ErrorKind::Other,
        message: "locked".to_string(),
    };
    assert_eq!(loaded_enrollment(&target, Err("locked".to_string())), Err(failure()));
    assert_eq!(updated_enrollment(Err("locked".to_string())), Err(failure()));
    assert_eq!(updated_enrollment(Ok(())), Ok(()));
}

fn with_token(expires_at: i128, next_refresh_at: Option<i128>) -> RemoteControlEnrollment {
    let mut enrollment = enrollment(&target("https://chatgpt.com"), "first");
    enrollment.remote_control_token = Some("token".to_string());
    enrollment.expires_at = Some(Timestamp {
        unix_nanos: expires_at,
    });
    enrollment.next_refresh_at = next_refresh_at.map(|unix_nanos| Timestamp { unix_nanos });
    enrollment
}

#[test]
fn a_token_is_refreshed_in_time() {
    let minute: i128 = 60_000_000_000;
    let at = |unix_nanos: i128| Timestamp { unix_nanos };
    let token = with_token(10 * minute, None);
    assert_eq!(
        token.server_token_refresh_requirement_at(at(5 * minute - 1)),
        RemoteControlServerTokenRefreshRequirement::NotNeeded
    );
    assert_eq!(
        token.server_token_refresh_requirement_at(at(5 * minute)),
        RemoteControlServerTokenRefreshRequirement::Proactive
    );
    assert_eq!(
        token.server_token_refresh_requirement_at(at(10 * minute - 1)),
        RemoteControlServerTokenRefreshRequirement::Proactive
    );
    assert_eq!(
        token.server_token_refresh_requirement_at(at(10 * minute)),
        RemoteControlServerTokenRefreshRequirement::Required
    );

    let put_off = with_token(10 * minute, Some(8 * minute));
    assert_eq!(
        put_off.server_token_refresh_requirement_at(at(8 * minute - 1)),
        RemoteControlServerTokenRefreshRequirement::NotNeeded
    );
    assert_eq!(
        put_off.server_token_refresh_requirement_at(at(8 * minute)),
        RemoteControlServerTokenRefreshRequirement::Proactive
    );
    let far = with_token(10 * minute, Some(20 * minute));
    assert_eq!(
        far.server_token_refresh_requirement_at(at(10 * minute)),
        RemoteControlServerTokenRefreshRequirement::Required
    );
    let last = with_token(i128::MAX, None);
    assert_eq!(
        last.server_token_refresh_requirement_at(at(i128::MAX - 1)),
        RemoteControlServerTokenRefreshRequirement::Proactive
    );
}

#[test]
fn the_clock_decides_now() {
    // The years 2001 and 9999.
    let expired = with_token(1_000_000_000_000_000_000, None);
    let lasting = with_token(253_370_764_800_000_000_000, None);
    assert_eq!(
        expired.server_token_refresh_requirement(),
        RemoteControlServerTokenRefreshRequirement::Required
    );
    assert!(expired.should_refresh_server_token());
    assert_eq!(expired.pairing_token(), None);
    assert_eq!(
        lasting.server_token_refresh_requirement(),
        RemoteControlServerTokenRefreshRequirement::NotNeeded
    );
    assert!(!lasting.should_refresh_server_token());
    assert_eq!(lasting.pairing_token(), Some("token"));
}

#[test]
fn clearing_a_token_keeps_the_rest() {
    let mut token = with_token(100, Some(50));
    token.clear_server_token();
    let mut expected = enrollment(&target("https://chatgpt.com"), "first");
    expected.next_refresh_at = Some(Timestamp { unix_nanos: 50 });
    assert_eq!(token, expected);
    assert_eq!(
        token.server_token_refresh_requirement_at(Timestamp { unix_nanos: 0 }),
        RemoteControlServerTokenRefreshRequirement::Required
    );
}

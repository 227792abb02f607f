//! Keeping enrollments in a state store, one for each service, account and client.
//!
//! The caller reads and writes the store. Which record is asked for, what is written, and what is
//! made of the answers, is decided here.

use vstd::prelude::*;

use crate::encoding::{optional_chars, show_optional, shown_optional};
use crate::protocol::optional_text;
use crate::remote_control::enrollment::{
    EnrollmentView, RemoteControlEnrollment, RemoteControlTarget, TargetView,
};
use crate::remote_control::error::{other_error, ErrorKind, ErrorView, RemoteControlError};
use crate::text::same_text;

verus! {

/// What an enrollment is kept under.
#[derive(Debug, PartialEq, Eq)]
pub struct EnrollmentKey {
    pub websocket_url: String,
    pub account_id: String,
    pub app_server_client_name: Option<String>,
}

/// What an enrollment is kept under, as text.
pub struct KeyView {
    pub websocket_url: Seq<char>,
    pub account_id: Seq<char>,
    pub app_server_client_name: Option<Seq<char>>,
}

impl View for EnrollmentKey {
    type V = KeyView;

    open spec fn view(&self) -> KeyView {
        KeyView {
            websocket_url: self.websocket_url@,
            account_id: self.account_id@,
            app_server_client_name: optional_text(self.app_server_client_name),
        }
    }
}

/// An enrollment as it is kept. Its token is not.
#[derive(Debug, PartialEq, Eq)]
pub struct RemoteControlEnrollmentRecord {
    pub websocket_url: String,
    pub account_id: String,
    pub app_server_client_name: Option<String>,
    pub server_id: String,
    pub environment_id: String,
    pub server_name: String,
    pub remote_control_enabled: Option<bool>,
}

/// An enrollment as it is kept, with its texts.
pub struct RecordView {
    pub websocket_url: Seq<char>,
    pub account_id: Seq<char>,
    pub app_server_client_name: Option<Seq<char>>,
    pub server_id: Seq<char>,
    pub environment_id: Seq<char>,
    pub server_name: Seq<char>,
    pub remote_control_enabled: Option<bool>,
}

impl RecordView {
    /// What the record is kept under.
    pub open spec fn key(self) -> KeyView {
        KeyView {
            websocket_url: self.websocket_url,
            account_id: self.account_id,
            app_server_client_name: self.app_server_client_name,
        }
    }
}

impl View for RemoteControlEnrollmentRecord {
    type V = RecordView;

    open spec fn view(&self) -> RecordView {
        RecordView {
            websocket_url: self.websocket_url@,
            account_id: self.account_id@,
            app_server_client_name: optional_text(self.app_server_client_name),
            server_id: self.server_id@,
            environment_id: self.environment_id@,
            server_name: self.server_name@,
            remote_control_enabled: self.remote_control_enabled,
        }
    }
}

/// A change to the store.
#[derive(Debug, PartialEq, Eq)]
pub enum EnrollmentUpdate {
    /// Keep this record, in place of the one under its key, if any.
    Upsert { record: RemoteControlEnrollmentRecord },
    /// Drop the record under this key, if any.
    Delete { key: EnrollmentKey },
}

/// A change to the store, with its texts.
pub enum UpdateView {
    Upsert { record: RecordView },
    Delete { key: KeyView },
}

impl View for EnrollmentUpdate {
    type V = UpdateView;

    open spec fn view(&self) -> UpdateView {
        match self {
            EnrollmentUpdate::Upsert { record } => UpdateView::Upsert { record: record@ },
            EnrollmentUpdate::Delete { key } => UpdateView::Delete { key: key@ },
        }
    }
}

/// How a message shows what an enrollment is kept under.
pub open spec fn shown_key(key: KeyView) -> Seq<char> {
    "websocket_url="@ + key.websocket_url + ", account_id="@ + key.account_id
        + ", app_server_client_name="@ + shown_optional(key.app_server_client_name)
}

/// What the enrollment of this account and client with this service is kept under.
pub open spec fn enrollment_key(
    target: TargetView,
    account_id: Seq<char>,
    client: Option<Seq<char>>,
) -> KeyView {
    KeyView { websocket_url: target.websocket_url, account_id, app_server_client_name: client }
}

/// Which record is asked for when an enrollment is loaded. Without a store none can be.
pub open spec fn load_request(has_store: bool, key: KeyView) -> Result<KeyView, ErrorView> {
    if has_store {
        Ok(key)
    } else {
        Err(
            ErrorView {
                kind: ErrorKind::NotFound,
                message: "remote control enrollment cache unavailable because sqlite state db is disabled: "@
                    + shown_key(key),
            },
        )
    }
}

/// The enrollment that a record stands for. It has no token yet.
pub open spec fn restored(target: TargetView, record: RecordView) -> EnrollmentView {
    EnrollmentView {
        remote_control_target: target,
        account_id: record.account_id,
        environment_id: record.environment_id,
        server_id: record.server_id,
        server_name: record.server_name,
        remote_control_token: None,
        expires_at: None,
        next_refresh_at: None,
    }
}

/// What is loaded where the store holds this record, if any.
pub open spec fn loaded(target: TargetView, record: Option<RecordView>) -> Option<EnrollmentView> {
    match record {
        Some(record) => Some(restored(target, record)),
        None => None,
    }
}

/// The record that an enrollment is kept as.
pub open spec fn kept_record(
    key: KeyView,
    enrollment: EnrollmentView,
    remote_control_enabled: Option<bool>,
) -> RecordView {
    RecordView {
        websocket_url: key.websocket_url,
        account_id: key.account_id,
        app_server_client_name: key.app_server_client_name,
        server_id: enrollment.server_id,
        environment_id: enrollment.environment_id,
        server_name: enrollment.server_name,
        remote_control_enabled,
    }
}

/// How the store is changed to hold this enrollment under this key, or none. Without a store it
/// cannot be, and an enrollment of another account must not be.
pub open spec fn planned_update(
    has_store: bool,
    key: KeyView,
    enrollment: Option<EnrollmentView>,
    remote_control_enabled: Option<bool>,
) -> Result<UpdateView, ErrorView> {
    if !has_store {
        Err(
            ErrorView {
                kind: ErrorKind::NotFound,
                message: "remote control enrollment persistence unavailable because sqlite state db is disabled: "@
                    + shown_key(key) + ", has_enrollment="@ + (if enrollment is Some {
                    "true"@
                } else {
                    "false"@
                }),
            },
        )
    } else {
        match enrollment {
            None => Ok(UpdateView::Delete { key }),
            Some(enrollment) => if enrollment.account_id != key.account_id {
                Err(
                    other_error(
                        "enrollment account_id does not match expected account_id `"@
                            + key.account_id + "`"@,
                    ),
                )
            } else {
                Ok(
                    UpdateView::Upsert {
                        record: kept_record(key, enrollment, remote_control_enabled),
                    },
                )
            },
        }
    }
}

/// An optional enrollment, with its texts.
pub open spec fn optional_enrollment(
    enrollment: Option<&RemoteControlEnrollment>,
) -> Option<EnrollmentView> {
    match enrollment {
        Some(enrollment) => Some(enrollment@),
        None => None,
    }
}

fn copy_client(client: Option<&str>) -> (r: Option<String>)
    ensures
        optional_text(r) == optional_chars(client),
{
    match client {
        Some(name) => Some(name.to_owned()),
        None => None,
    }
}

fn write_key(target: &RemoteControlTarget, account_id: &str, client: Option<&str>) -> (r: String)
    ensures
        r@ == shown_key(enrollment_key(target@, account_id@, optional_chars(client))),
{
    let mut out = "websocket_url=".to_owned();
    out.append(target.websocket_url.as_str());
    out.append(", account_id=");
    out.append(account_id);
    out.append(", app_server_client_name=");
    out.append(show_optional(client).as_str());
    out
}

/// Which record to ask the store for, to load the enrollment of this account and client with this
/// service.
pub fn plan_enrollment_load(
    has_store: bool,
    remote_control_target: &RemoteControlTarget,
    account_id: &str,
    app_server_client_name: Option<&str>,
) -> (r: Result<EnrollmentKey, RemoteControlError>)
    ensures
        load_request(
            has_store,
            enrollment_key(
                remote_control_target@,
                account_id@,
                optional_chars(app_server_client_name),
            ),
        ) == (match r {
            Ok(key) => Ok::<KeyView, ErrorView>(key@),
            Err(err) => Err(err@),
        }),
{
    if !has_store {
        let mut message =
            "remote control enrollment cache unavailable because sqlite state db is disabled: ".to_owned();
        message.append(
            write_key(remote_control_target, account_id, app_server_client_name).as_str(),
        );
        return Err(RemoteControlError { kind: ErrorKind::NotFound, message });
    }
    Ok(
        EnrollmentKey {
            websocket_url: remote_control_target.websocket_url.clone(),
            account_id: account_id.to_owned(),
            app_server_client_name: copy_client(app_server_client_name),
        },
    )
}

/// Makes of the store's answer the enrollment that is loaded, if any. `answer` is the record that
/// the store holds, if any, or why it could not be read.
pub fn loaded_enrollment(
    remote_control_target: &RemoteControlTarget,
    answer: Result<Option<RemoteControlEnrollmentRecord>, String>,
) -> (r: Result<Option<RemoteControlEnrollment>, RemoteControlError>)
    ensures
        match (answer, r) {
            (Err(why), Err(err)) => err@ == other_error(why@),
            (Ok(None), Ok(enrollment)) => enrollment is None,
            (Ok(Some(record)), Ok(Some(enrollment))) => enrollment@ == restored(
                remote_control_target@,
                record@,
            ),
            _ => false,
        },
{
    match answer {
        Err(why) => Err(RemoteControlError::other(why)),
        Ok(None) => Ok(None),
        Ok(Some(record)) => Ok(
            Some(
                RemoteControlEnrollment {
                    remote_control_target: remote_control_target.clone(),
                    account_id: record.account_id,
                    environment_id: record.environment_id,
                    server_id: record.server_id,
                    server_name: record.server_name,
                    remote_control_token: None,
                    expires_at: None,
                    next_refresh_at: None,
                },
            ),
        ),
    }
}

/// How to change the store so that it holds this enrollment, or none, for this account and client
/// with this service.
pub fn plan_enrollment_update(
    has_store: bool,
    remote_control_target: &RemoteControlTarget,
    account_id: &str,
    app_server_client_name: Option<&str>,
    enrollment: Option<&RemoteControlEnrollment>,
    remote_control_enabled: Option<bool>,
) -> (r: Result<EnrollmentUpdate, RemoteControlError>)
    ensures
        planned_update(
            has_store,
            enrollment_key(
                remote_control_target@,
                account_id@,
                optional_chars(app_server_client_name),
            ),
            optional_enrollment(enrollment),
            remote_control_enabled,
        ) == (match r {
            Ok(update) => Ok::<UpdateView, ErrorView>(update@),
            Err(err) => Err(err@),
        }),
{
    if !has_store {
        let mut message =
            "remote control enrollment persistence unavailable because sqlite state db is disabled: ".to_owned();
        message.append(
            write_key(remote_control_target, account_id, app_server_client_name).as_str(),
        );
        message.append(", has_enrollment=");
        if enrollment.is_some() {
            message.append("true");
        } else {
            message.append("false");
        }
        return Err(RemoteControlError { kind: ErrorKind::NotFound, message });
    }
    match enrollment {
        Some(enrollment) => {
            if !same_text(enrollment.account_id.as_str(), account_id) {
                let mut message =
                    "enrollment account_id does not match expected account_id `".to_owned();
                message.append(account_id);
                message.append("`");
                return Err(RemoteControlError::other(message));
            }
            Ok(
                EnrollmentUpdate::Upsert {
                    record: RemoteControlEnrollmentRecord {
                        websocket_url: remote_control_target.websocket_url.clone(),
                        account_id: account_id.to_owned(),
                        app_server_client_name: copy_client(app_server_client_name),
                        server_id: enrollment.server_id.clone(),
                        environment_id: enrollment.environment_id.clone(),
                        server_name: enrollment.server_name.clone(),
                        remote_control_enabled,
                    },
                },
            )
        },
        None => Ok(
            EnrollmentUpdate::Delete {
                key: EnrollmentKey {
                    websocket_url: remote_control_target.websocket_url.clone(),
                    account_id: account_id.to_owned(),
                    app_server_client_name: copy_client(app_server_client_name),
                },
            },
        ),
    }
}

/// Makes of the store's answer to a change what the caller is told.
pub fn updated_enrollment(answer: Result<(), String>) -> (r: Result<(), RemoteControlError>)
    ensures
        match (answer, r) {
            (Ok(_), Ok(_)) => true,
            (Err(why), Err(err)) => err@ == other_error(why@),
            _ => false,
        },
{
    match answer {
        Ok(_) => Ok(()),
        Err(why) => Err(RemoteControlError::other(why)),
    }
}

/// A store that holds at most one record under each key, after a change.
pub open spec fn changed_store(
    store: Map<KeyView, RecordView>,
    update: UpdateView,
) -> Map<KeyView, RecordView> {
    match update {
        UpdateView::Upsert { record } => store.insert(record.key(), record),
        UpdateView::Delete { key } => store.remove(key),
    }
}

/// The record that a store holds under a key, if any.
pub open spec fn stored_record(store: Map<KeyView, RecordView>, key: KeyView) -> Option<RecordView> {
    if store.contains_key(key) {
        Some(store[key])
    } else {
        None
    }
}

/// An enrollment that was kept loads back under the key that it was kept under, without its
/// token, and with the target it is loaded for.
pub proof fn law_kept_enrollment_loads_back(
    store: Map<KeyView, RecordView>,
    target: TargetView,
    account_id: Seq<char>,
    client: Option<Seq<char>>,
    enrollment: EnrollmentView,
    remote_control_enabled: Option<bool>,
)
    requires
        enrollment.account_id == account_id,
    ensures
        ({
            let key = enrollment_key(target, account_id, client);
            let update = planned_update(true, key, Some(enrollment), remote_control_enabled);
            update is Ok && loaded(target, stored_record(changed_store(store, update->Ok_0), key))
                == Some(
                EnrollmentView {
                    remote_control_target: target,
                    remote_control_token: None,
                    expires_at: None,
                    next_refresh_at: None,
                    ..enrollment
                },
            )
        }),
{
}

/// An enrollment that was cleared does not load any more.
pub proof fn law_cleared_enrollment_is_gone(
    store: Map<KeyView, RecordView>,
    target: TargetView,
    account_id: Seq<char>,
    client: Option<Seq<char>>,
    remote_control_enabled: Option<bool>,
)
    ensures
        ({
            let key = enrollment_key(target, account_id, client);
            let update = planned_update(true, key, None, remote_control_enabled);
            update is Ok && loaded(target, stored_record(changed_store(store, update->Ok_0), key))
                is None
        }),
{
}

/// Keeping or clearing an enrollment leaves those of every other service, account and client as
/// they are.
pub proof fn law_update_touches_one_entry(
    store: Map<KeyView, RecordView>,
    key: KeyView,
    enrollment: Option<EnrollmentView>,
    remote_control_enabled: Option<bool>,
    other: KeyView,
)
    requires
        planned_update(true, key, enrollment, remote_control_enabled) is Ok,
        other != key,
    ensures
        stored_record(
            changed_store(
                store,
                planned_update(true, key, enrollment, remote_control_enabled)->Ok_0,
            ),
            other,
        ) == stored_record(store, other),
{
}

/// A restored enrollment has no token, so that its token has to be refreshed before it is used.
pub proof fn law_restored_enrollment_requires_refresh(
    target: TargetView,
    record: RecordView,
    now: crate::clock::Timestamp,
)
    ensures
        restored(target, record).refresh_requirement(now)
            == crate::remote_control::enrollment::RemoteControlServerTokenRefreshRequirement::Required,
{
}

/// An enrollment is looked up under the target's address, the account and the client it is asked
/// for, and only where there is a store. Elsewhere the message says what was asked for.
pub proof fn law_a_load_asks_for_what_was_named(
    target: TargetView,
    account_id: Seq<char>,
    client: Option<Seq<char>>,
)
    ensures
        ({
            let key = enrollment_key(target, account_id, client);
            &&& load_request(true, key) matches Ok(asked) && asked.websocket_url
                == target.websocket_url && asked.account_id == account_id
                && asked.app_server_client_name == client
            &&& load_request(false, key) matches Err(e) && e.kind == ErrorKind::NotFound
                && e.message
                == "remote control enrollment cache unavailable because sqlite state db is disabled: "@
                + ("websocket_url="@ + target.websocket_url + ", account_id="@ + account_id
                + ", app_server_client_name="@ + shown_optional(client))
        }),
{
}

/// An enrollment is loaded with the account, the environment and the server of its record, for the
/// target it was asked for, without a token. Without a record none is loaded.
pub proof fn law_a_loaded_enrollment_is_its_records(target: TargetView, record: RecordView)
    ensures
        loaded(target, None) is None,
        loaded(target, Some(record)) matches Some(enrollment) && enrollment.remote_control_target
            == target && enrollment.account_id == record.account_id && enrollment.environment_id
            == record.environment_id && enrollment.server_id == record.server_id
            && enrollment.server_name == record.server_name && enrollment.remote_control_token is None
            && enrollment.expires_at is None && enrollment.next_refresh_at is None,
        loaded(target, Some(record)) == Some(restored(target, record)),
{
}

/// What is written is the enrollment under its target, account and client, and what is cleared is
/// the record under them. Without a store, and for an enrollment of another account, nothing is
/// written and the message says why.
pub proof fn law_an_update_writes_what_was_named(
    target: TargetView,
    account_id: Seq<char>,
    client: Option<Seq<char>>,
    enrollment: EnrollmentView,
    remote_control_enabled: Option<bool>,
)
    ensures
        ({
            let key = enrollment_key(target, account_id, client);
            let lead =
                "remote control enrollment persistence unavailable because sqlite state db is disabled: "@
                + ("websocket_url="@ + target.websocket_url + ", account_id="@ + account_id
                + ", app_server_client_name="@ + shown_optional(client)) + ", has_enrollment="@;
            &&& planned_update(true, key, None, remote_control_enabled) matches Ok(
                UpdateView::Delete { key: cleared },
            ) && cleared.websocket_url == target.websocket_url && cleared.account_id == account_id
                && cleared.app_server_client_name == client
            &&& enrollment.account_id == account_id ==> (planned_update(
                true,
                key,
                Some(enrollment),
                remote_control_enabled,
            ) matches Ok(UpdateView::Upsert { record }) && record.websocket_url
                == target.websocket_url && record.account_id == account_id
                && record.app_server_client_name == client && record.server_id
                == enrollment.server_id && record.environment_id == enrollment.environment_id
                && record.server_name == enrollment.server_name && record.remote_control_enabled
                == remote_control_enabled)
            &&& enrollment.account_id != account_id ==> (planned_update(
                true,
                key,
                Some(enrollment),
                remote_control_enabled,
            ) matches Err(e) && e.kind == ErrorKind::Other && e.message
                == "enrollment account_id does not match expected account_id `"@ + account_id
                + "`"@)
            &&& planned_update(false, key, None, remote_control_enabled) matches Err(e) && e.kind
                == ErrorKind::NotFound && e.message == lead + "false"@
            &&& planned_update(false, key, Some(enrollment), remote_control_enabled) matches Err(e)
                && e.kind == ErrorKind::NotFound && e.message == lead + "true"@
        }),
{
}

/// The views of keys, records and changes hold each field under its own name.
pub proof fn law_store_views_hold_each_field(
    key: EnrollmentKey,
    record: RemoteControlEnrollmentRecord,
    enrollment: &RemoteControlEnrollment,
)
    ensures
        key@.websocket_url == key.websocket_url@,
        key@.account_id == key.account_id@,
        key.app_server_client_name matches Some(name) ==> key@.app_server_client_name == Some(
            name@,
        ),
        key.app_server_client_name is None ==> key@.app_server_client_name is None,
        record@.websocket_url == record.websocket_url@,
        record@.account_id == record.account_id@,
        record.app_server_client_name matches Some(name) ==> record@.app_server_client_name == Some(
            name@,
        ),
        record.app_server_client_name is None ==> record@.app_server_client_name is None,
        record@.server_id == record.server_id@,
        record@.environment_id == record.environment_id@,
        record@.server_name == record.server_name@,
        record@.remote_control_enabled == record.remote_control_enabled,
        (EnrollmentUpdate::Upsert { record })@ == (UpdateView::Upsert { record: record@ }),
        (EnrollmentUpdate::Delete { key })@ == (UpdateView::Delete { key: key@ }),
        optional_enrollment(Some(enrollment)) == Some(enrollment@),
        optional_enrollment(None) is None,
{
}

} // verus!

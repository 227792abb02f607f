//! The version that a server reports, and how it names itself in requests.
//!
//! A released build reports its own version. A build from source has none: it reports that of the
//! installed desktop app, else that of the latest release, and keeps to what it found first. The
//! caller looks those up and remembers; what to do next is decided here.

use vstd::prelude::*;
use vstd::utf8::{decode_utf8, valid_utf8};

use crate::encoding::{decode_strict, optional_chars, utf8_error_text};
use crate::http_response::{is_status, is_success_status, show_status, status_text};
use crate::remote_control::error::{
    other_error, result_text, ErrorKind, ErrorView, RemoteControlError,
};
use crate::text::{
    after_first, after_first_spec, contains_text, first_occurrence, law_one_place_is_replaced,
    law_only_a_prefix_is_stripped, law_what_follows_the_first, lemma_first_occurrence,
    lemma_replace_first_absent, lemma_replace_first_at, occurs_at, replace_first,
    replace_first_spec, same_text, strip_prefix, strip_prefix_spec, trim, trim_spec,
};

verus! {

/// The version of a build from source.
pub const DEV_BUILD_VERSION_SENTINEL: &'static str = "0.0.0";

/// What a build from source is taken for.
pub const REMOTE_CONTROL_DESKTOP_ORIGINATOR: &'static str = "Codex Desktop";

/// Where the desktop app keeps its version.
pub const DESKTOP_APP_INFO_PLIST: &'static str = "/Applications/Codex.app/Contents/Info.plist";

/// Whether this is the version of a build from source.
pub open spec fn is_dev_build(build_version: Seq<char>) -> bool {
    build_version == DEV_BUILD_VERSION_SENTINEL@
}

/// The version in what was read of the desktop app's bundle.
pub open spec fn bundle_version(output: Seq<char>) -> Result<Seq<char>, ErrorView> {
    if trim_spec(output).len() == 0 {
        Err(other_error("installed Desktop Codex bundle version output was empty"@))
    } else {
        Ok(trim_spec(output))
    }
}

/// Takes the version out of what was read of the desktop app's bundle.
pub fn extract_desktop_app_bundle_version(output: &str) -> (r: Result<String, RemoteControlError>)
    ensures
        result_text(r) == bundle_version(output@),
{
    let version = trim(output);
    if version.is_empty() {
        return Err(
            RemoteControlError::other(
                "installed Desktop Codex bundle version output was empty".to_owned(),
            ),
        );
    }
    Ok(version.to_owned())
}

/// The version in a release's tag.
pub open spec fn release_version(tag: Seq<char>) -> Result<Seq<char>, ErrorView> {
    match strip_prefix_spec(tag, "rust-v"@) {
        Some(version) => Ok(version),
        None => Err(other_error("failed to parse latest release tag `"@ + tag + "`"@)),
    }
}

/// Takes the version out of a release's tag, such as `rust-v1.2.3`.
pub fn extract_release_version(tag_name: &str) -> (r: Result<String, RemoteControlError>)
    ensures
        result_text(r) == release_version(tag_name@),
{
    match strip_prefix(tag_name, "rust-v") {
        Some(version) => Ok(version.to_owned()),
        None => {
            let mut message = "failed to parse latest release tag `".to_owned();
            message.append(tag_name);
            message.append("`");
            Err(RemoteControlError::other(message))
        },
    }
}

/// What came of reading the desktop app's bundle version.
#[derive(Debug, PartialEq, Eq)]
pub enum BundleRead {
    /// The reader could not be run.
    SpawnFailed { err: String },
    /// The reader ended, with this status.
    Exited { success: bool, status: String, stdout: Vec<u8> },
}

/// The version of the installed desktop app, given what its bundle's output reads as.
pub open spec fn decoded_bundle_version(decoded: Result<Seq<char>, Seq<char>>) -> Result<
    Seq<char>,
    ErrorView,
> {
    match decoded {
        Ok(output) => bundle_version(output),
        Err(err) => Err(
            other_error(
                "installed Desktop Codex bundle version from `"@ + DESKTOP_APP_INFO_PLIST@
                    + "` returned non-UTF8 output: "@ + err,
            ),
        ),
    }
}

/// What bytes read as in UTF-8, or the text of the error where they are none.
pub open spec fn decoded_bytes(bytes: Seq<u8>) -> Result<Seq<char>, Seq<char>> {
    if valid_utf8(bytes) {
        Ok(decode_utf8(bytes))
    } else {
        Err(utf8_error_text(bytes))
    }
}

/// The version of the installed desktop app.
pub open spec fn desktop_version(read: BundleRead) -> Result<Seq<char>, ErrorView> {
    match read {
        BundleRead::SpawnFailed { err } => Err(
            other_error(
                "failed to read installed Desktop Codex bundle version from `"@
                    + DESKTOP_APP_INFO_PLIST@ + "`: "@ + err@,
            ),
        ),
        BundleRead::Exited { success, status, stdout } => if !success {
            Err(
                other_error(
                    "reading installed Desktop Codex bundle version from `"@
                        + DESKTOP_APP_INFO_PLIST@ + "` exited with "@ + status@,
                ),
            )
        } else {
            decoded_bundle_version(decoded_bytes(stdout@))
        },
    }
}

/// Takes the version of the installed desktop app out of what its bundle's output reads as.
pub fn decoded_desktop_app_version(decoded: Result<String, String>) -> (r: Result<
    String,
    RemoteControlError,
>)
    ensures
        result_text(r) == decoded_bundle_version(
            match decoded {
                Ok(output) => Ok(output@),
                Err(err) => Err(err@),
            },
        ),
{
    match decoded {
        Ok(output) => extract_desktop_app_bundle_version(output.as_str()),
        Err(err) => {
            let mut message = "installed Desktop Codex bundle version from `".to_owned();
            message.append(DESKTOP_APP_INFO_PLIST);
            message.append("` returned non-UTF8 output: ");
            message.append(err.as_str());
            Err(RemoteControlError::other(message))
        },
    }
}

/// Takes the version of the installed desktop app out of what came of reading its bundle.
pub fn desktop_app_version(read: BundleRead) -> (r: Result<String, RemoteControlError>)
    ensures
        result_text(r) == desktop_version(read),
{
    match read {
        BundleRead::SpawnFailed { err } => {
            let mut message =
                "failed to read installed Desktop Codex bundle version from `".to_owned();
            message.append(DESKTOP_APP_INFO_PLIST);
            message.append("`: ");
            message.append(err.as_str());
            Err(RemoteControlError::other(message))
        },
        BundleRead::Exited { success, status, stdout } => {
            if !success {
                let mut message =
                    "reading installed Desktop Codex bundle version from `".to_owned();
                message.append(DESKTOP_APP_INFO_PLIST);
                message.append("` exited with ");
                message.append(status.as_str());
                return Err(RemoteControlError::other(message));
            }
            decoded_desktop_app_version(decode_strict(stdout))
        },
    }
}

/// What came of asking for the latest release. `tag` is the tag that the body names, or why it
/// names none.
#[derive(Debug, PartialEq, Eq)]
pub enum ReleaseReply {
    SendFailed { err: String },
    ReadFailed { err: String },
    Response { status: u16, tag: Result<String, String> },
}

impl ReleaseReply {
    /// A response has a status that HTTP has.
    pub open spec fn is_valid(self) -> bool {
        self matches ReleaseReply::Response { status, .. } ==> is_status(status)
    }
}

/// The version of the latest release, given a response and how messages show its status.
pub open spec fn answered_release(
    status: u16,
    shown_status: Seq<char>,
    tag: Result<String, String>,
) -> Result<Seq<char>, ErrorView> {
    if !is_success_status(status) {
        Err(other_error("latest Codex release metadata probe failed: HTTP "@ + shown_status))
    } else {
        match tag {
            Ok(tag) => release_version(tag@),
            Err(err) => Err(
                other_error("failed to parse latest Codex release metadata: "@ + err@),
            ),
        }
    }
}

/// The version of the latest release.
pub open spec fn latest_release(reply: ReleaseReply) -> Result<Seq<char>, ErrorView> {
    match reply {
        ReleaseReply::SendFailed { err } => Err(
            other_error("failed to fetch latest Codex release metadata: "@ + err@),
        ),
        ReleaseReply::ReadFailed { err } => Err(
            other_error("failed to read latest Codex release metadata: "@ + err@),
        ),
        ReleaseReply::Response { status, tag } => answered_release(
            status,
            status_text(status),
            tag,
        ),
    }
}

/// Takes the version of the latest release out of a response, given how messages show its status.
pub fn answered_release_version(
    status: u16,
    shown_status: &str,
    tag: Result<String, String>,
) -> (r: Result<String, RemoteControlError>)
    ensures
        result_text(r) == answered_release(status, shown_status@, tag),
{
    if !(200 <= status && status <= 299) {
        let mut message = "latest Codex release metadata probe failed: HTTP ".to_owned();
        message.append(shown_status);
        return Err(RemoteControlError::other(message));
    }
    match tag {
        Ok(tag) => extract_release_version(tag.as_str()),
        Err(err) => {
            let mut message = "failed to parse latest Codex release metadata: ".to_owned();
            message.append(err.as_str());
            Err(RemoteControlError::other(message))
        },
    }
}

/// Takes the version of the latest release out of what came of asking for it.
pub fn latest_release_version(reply: ReleaseReply) -> (r: Result<String, RemoteControlError>)
    requires
        reply.is_valid(),
    ensures
        result_text(r) == latest_release(reply),
{
    match reply {
        ReleaseReply::SendFailed { err } => {
            let mut message = "failed to fetch latest Codex release metadata: ".to_owned();
            message.append(err.as_str());
            Err(RemoteControlError::other(message))
        },
        ReleaseReply::ReadFailed { err } => {
            let mut message = "failed to read latest Codex release metadata: ".to_owned();
            message.append(err.as_str());
            Err(RemoteControlError::other(message))
        },
        ReleaseReply::Response { status, tag } => {
            let shown = show_status(status);
            answered_release_version(status, shown.as_str(), tag)
        },
    }
}

/// What to do next, to find the version to report.
#[derive(Debug, PartialEq, Eq)]
pub enum VersionStep {
    /// Report this version.
    Report { version: String },
    /// Remember this version for good, unless one is remembered already, and report it.
    RememberAndReport { version: String },
    /// Look up the version of the installed desktop app.
    AskDesktopApp,
    /// Look up the version of the latest release.
    AskLatestRelease,
}

/// What to do next, with its texts.
pub enum StepView {
    Report { version: Seq<char> },
    RememberAndReport { version: Seq<char> },
    AskDesktopApp,
    AskLatestRelease,
}

impl View for VersionStep {
    type V = StepView;

    open spec fn view(&self) -> StepView {
        match self {
            VersionStep::Report { version } => StepView::Report { version: version@ },
            VersionStep::RememberAndReport { version } => StepView::RememberAndReport {
                version: version@,
            },
            VersionStep::AskDesktopApp => StepView::AskDesktopApp,
            VersionStep::AskLatestRelease => StepView::AskLatestRelease,
        }
    }
}

/// The first step to the version to report.
pub open spec fn first_step(build_version: Seq<char>, remembered: Option<Seq<char>>) -> StepView {
    if !is_dev_build(build_version) {
        StepView::Report { version: build_version }
    } else {
        match remembered {
            Some(version) => StepView::Report { version },
            None => StepView::AskDesktopApp,
        }
    }
}

/// The step after the desktop app was looked up.
pub open spec fn desktop_step(answer: Result<Seq<char>, ErrorView>) -> StepView {
    match answer {
        Ok(version) => StepView::RememberAndReport { version },
        Err(_) => StepView::AskLatestRelease,
    }
}

/// The step after the latest release was looked up.
pub open spec fn release_step(
    build_version: Seq<char>,
    answer: Result<Seq<char>, ErrorView>,
) -> StepView {
    match answer {
        Ok(version) => StepView::RememberAndReport { version },
        Err(_) => StepView::RememberAndReport { version: build_version },
    }
}

/// Takes the first step to the version to report.
pub fn start_version_lookup(build_version: &str, remembered: Option<&str>) -> (r: VersionStep)
    ensures
        r@ == first_step(build_version@, optional_chars(remembered)),
{
    if !same_text(build_version, DEV_BUILD_VERSION_SENTINEL) {
        return VersionStep::Report { version: build_version.to_owned() };
    }
    match remembered {
        Some(version) => VersionStep::Report { version: version.to_owned() },
        None => VersionStep::AskDesktopApp,
    }
}

/// Takes the step after the desktop app was looked up.
pub fn desktop_version_answered(answer: Result<String, RemoteControlError>) -> (r: VersionStep)
    ensures
        r@ == desktop_step(result_text(answer)),
{
    match answer {
        Ok(version) => VersionStep::RememberAndReport { version },
        Err(_) => VersionStep::AskLatestRelease,
    }
}

/// Takes the step after the latest release was looked up.
pub fn release_version_answered(
    build_version: &str,
    answer: Result<String, RemoteControlError>,
) -> (r: VersionStep)
    ensures
        r@ == release_step(build_version@, result_text(answer)),
{
    match answer {
        Ok(version) => VersionStep::RememberAndReport { version },
        Err(_) => VersionStep::RememberAndReport { version: build_version.to_owned() },
    }
}

/// The version that is reported, given what the lookups answer if they are made.
pub open spec fn reported_version(
    build_version: Seq<char>,
    remembered: Option<Seq<char>>,
    desktop: Result<Seq<char>, ErrorView>,
    release: Result<Seq<char>, ErrorView>,
) -> Seq<char> {
    if !is_dev_build(build_version) {
        build_version
    } else {
        match (remembered, desktop, release) {
            (Some(version), _, _) => version,
            (None, Ok(version), _) => version,
            (None, Err(_), Ok(version)) => version,
            (None, Err(_), Err(_)) => build_version,
        }
    }
}

/// The user agent of a build, before the reported version is put in: that of a build from source
/// names the desktop app in place of what stands before the first slash.
pub open spec fn named_user_agent(
    build_version: Seq<char>,
    codex_user_agent: Seq<char>,
) -> Seq<char> {
    match after_first_spec(codex_user_agent, '/') {
        Some(rest) if is_dev_build(build_version) => REMOTE_CONTROL_DESKTOP_ORIGINATOR@ + "/"@
            + rest,
        _ => codex_user_agent,
    }
}

/// How a user agent writes a version.
pub open spec fn version_marker(version: Seq<char>) -> Seq<char> {
    "/"@ + version + " "@
}

/// The user agent of a build that reports this version.
pub open spec fn user_agent(
    build_version: Seq<char>,
    codex_user_agent: Seq<char>,
    version: Seq<char>,
) -> Seq<char> {
    if build_version != version {
        replace_first_spec(
            named_user_agent(build_version, codex_user_agent),
            version_marker(build_version),
            version_marker(version),
        )
    } else {
        named_user_agent(build_version, codex_user_agent)
    }
}

fn write_version_marker(version: &str) -> (r: String)
    ensures
        r@ == version_marker(version@),
{
    let mut out = "/".to_owned();
    out.append(version);
    out.append(" ");
    out
}

/// The user agent of a build that reports this version. `codex_user_agent` is the user agent of
/// the build itself.
pub fn remote_control_user_agent_with_version(
    build_version: &str,
    codex_user_agent: &str,
    version: &str,
) -> (r: String)
    ensures
        r@ == user_agent(build_version@, codex_user_agent@, version@),
{
    let mut current = codex_user_agent.to_owned();
    if same_text(build_version, DEV_BUILD_VERSION_SENTINEL) {
        if let Some(rest) = after_first(codex_user_agent, '/') {
            let mut named = REMOTE_CONTROL_DESKTOP_ORIGINATOR.to_owned();
            named.append("/");
            named.append(rest);
            current = named;
        }
    }
    if !same_text(build_version, version) {
        let build_marker = write_version_marker(build_version);
        let replacement = write_version_marker(version);
        current = replace_first(current.as_str(), build_marker.as_str(), replacement.as_str());
    }
    current
}

/// The user agent that can be told without a lookup: that of a released build, and that of a
/// build from source which remembers the version it reports.
pub open spec fn cached_user_agent(
    build_version: Seq<char>,
    codex_user_agent: Seq<char>,
    remembered: Option<Seq<char>>,
) -> Option<Seq<char>> {
    if is_dev_build(build_version) {
        match remembered {
            Some(version) => Some(user_agent(build_version, codex_user_agent, version)),
            None => None,
        }
    } else {
        Some(user_agent(build_version, codex_user_agent, build_version))
    }
}

/// The user agent, if it can be told without a lookup.
pub fn cached_remote_control_user_agent(
    build_version: &str,
    codex_user_agent: &str,
    remembered: Option<&str>,
) -> (r: Option<String>)
    ensures
        crate::protocol::optional_text(r) == cached_user_agent(
            build_version@,
            codex_user_agent@,
            optional_chars(remembered),
        ),
{
    if same_text(build_version, DEV_BUILD_VERSION_SENTINEL) {
        return match remembered {
            Some(version) => Some(
                remote_control_user_agent_with_version(build_version, codex_user_agent, version),
            ),
            None => None,
        };
    }
    Some(remote_control_user_agent_with_version(build_version, codex_user_agent, build_version))
}

/// Who a build says its requests come from. `originator` is who the build itself would say.
pub fn remote_control_originator(build_version: &str, originator: String) -> (r: String)
    ensures
        r@ == (if is_dev_build(build_version@) {
            REMOTE_CONTROL_DESKTOP_ORIGINATOR@
        } else {
            originator@
        }),
{
    if same_text(build_version, DEV_BUILD_VERSION_SENTINEL) {
        REMOTE_CONTROL_DESKTOP_ORIGINATOR.to_owned()
    } else {
        originator
    }
}

/// Whether a step ends the lookup, reporting this version.
pub open spec fn reports(step: StepView, version: Seq<char>) -> bool {
    step == StepView::Report { version } || step == StepView::RememberAndReport { version }
}

/// The steps end, after at most two lookups, in the version to report.
pub proof fn law_lookup_finds_the_reported_version(
    build_version: Seq<char>,
    remembered: Option<Seq<char>>,
    desktop: Result<Seq<char>, ErrorView>,
    release: Result<Seq<char>, ErrorView>,
)
    ensures
        ({
            let version = reported_version(build_version, remembered, desktop, release);
            let first = first_step(build_version, remembered);
            ||| reports(first, version)
            ||| first == StepView::AskDesktopApp && reports(desktop_step(desktop), version)
            ||| first == StepView::AskDesktopApp && desktop_step(desktop)
                == StepView::AskLatestRelease && reports(
                release_step(build_version, release),
                version,
            )
        }),
{
}

/// A released build reports its own version, whatever is installed or released elsewhere.
pub proof fn law_released_build_reports_itself(
    build_version: Seq<char>,
    remembered: Option<Seq<char>>,
    desktop: Result<Seq<char>, ErrorView>,
    release: Result<Seq<char>, ErrorView>,
)
    requires
        !is_dev_build(build_version),
    ensures
        reported_version(build_version, remembered, desktop, release) == build_version,
{
}

/// A build from source prefers the version of the installed desktop app to any release's.
pub proof fn law_source_build_prefers_the_desktop_app(
    build_version: Seq<char>,
    version: Seq<char>,
    release: Result<Seq<char>, ErrorView>,
)
    requires
        is_dev_build(build_version),
    ensures
        reported_version(build_version, None, Ok(version), release) == version,
{
}

/// A build from source that remembers the version it reported reports it again, whatever the
/// lookups would answer by then.
pub proof fn law_reported_version_is_kept(
    build_version: Seq<char>,
    desktop: Result<Seq<char>, ErrorView>,
    release: Result<Seq<char>, ErrorView>,
    later_desktop: Result<Seq<char>, ErrorView>,
    later_release: Result<Seq<char>, ErrorView>,
)
    ensures
        ({
            let version = reported_version(build_version, None, desktop, release);
            reported_version(build_version, Some(version), later_desktop, later_release) == version
        }),
{
}

/// The user agent that is told without a lookup is the one that names the reported version.
pub proof fn law_cached_user_agent_is_the_resolved_one(
    build_version: Seq<char>,
    codex_user_agent: Seq<char>,
    desktop: Result<Seq<char>, ErrorView>,
    release: Result<Seq<char>, ErrorView>,
)
    ensures
        ({
            let version = reported_version(build_version, None, desktop, release);
            cached_user_agent(build_version, codex_user_agent, Some(version)) == Some(
                user_agent(build_version, codex_user_agent, version),
            )
        }),
{
}

/// A user agent that names the version of its build names the reported version instead.
pub proof fn law_user_agent_names_the_reported_version(
    build_version: Seq<char>,
    codex_user_agent: Seq<char>,
    version: Seq<char>,
)
    requires
        contains_text(
            named_user_agent(build_version, codex_user_agent),
            version_marker(build_version),
        ),
    ensures
        contains_text(
            user_agent(build_version, codex_user_agent, version),
            version_marker(version),
        ),
{
    let named = named_user_agent(build_version, codex_user_agent);
    let from = version_marker(build_version);
    let to = version_marker(version);
    if build_version != version {
        let at = choose|at: int| occurs_at(named, from, at);
        let first = lemma_first_occurrence(named, from, at);
        lemma_replace_first_at(named, from, to, first);
        let replaced = named.take(first) + to + named.skip(first + from.len());
        assert(replaced.subrange(first, first + to.len()) =~= to);
        assert(occurs_at(replaced, to, first));
    }
}

/// The user agent of a build from source names the desktop app, whatever version it reports.
pub proof fn law_source_build_is_taken_for_the_desktop_app(
    build_version: Seq<char>,
    codex_user_agent: Seq<char>,
    version: Seq<char>,
)
    requires
        is_dev_build(build_version),
        after_first_spec(codex_user_agent, '/') is Some,
    ensures
        occurs_at(
            user_agent(build_version, codex_user_agent, version),
            REMOTE_CONTROL_DESKTOP_ORIGINATOR@ + "/"@,
            0,
        ),
{
    let named = named_user_agent(build_version, codex_user_agent);
    let name = REMOTE_CONTROL_DESKTOP_ORIGINATOR@;
    let lead = name + "/"@;
    let from = version_marker(build_version);
    let to = version_marker(version);
    reveal_strlit("/");
    reveal_strlit(" ");
    reveal_strlit("Codex Desktop");
    assert(named.subrange(0, lead.len() as int) =~= lead);
    if build_version != version {
        if contains_text(named, from) {
            let at = choose|at: int| occurs_at(named, from, at);
            let first = lemma_first_occurrence(named, from, at);
            // No slash stands in the name, so the version stands after it.
            assert(from[0] == '/');
            assert(named.subrange(first, first + from.len())[0] == '/');
            assert(named[first] == '/');
            assert(first >= name.len()) by {
                if first < name.len() {
                    assert(named[first] == name[first]);
                }
            }
            lemma_replace_first_at(named, from, to, first);
            let replaced = named.take(first) + to + named.skip(first + from.len());
            assert(to[0] == '/');
            assert forall|k: int| 0 <= k < lead.len() implies replaced[k] == lead[k] by {
                if k < first {
                    assert(replaced[k] == named[k]);
                } else {
                    assert(k == first);
                    assert(replaced[k] == to[0]);
                }
            }
            assert(replaced.subrange(0, lead.len() as int) =~= lead);
        } else {
            lemma_replace_first_absent(named, from, to);
        }
    }
}

/// A tag names the version that stands behind `rust-v`, and no other tag names one.
pub proof fn law_a_tag_names_what_follows_its_prefix(tag: Seq<char>, version: Seq<char>)
    ensures
        release_version("rust-v"@ + version) == Ok::<Seq<char>, ErrorView>(version),
        release_version(tag) == Ok::<Seq<char>, ErrorView>(version) ==> tag == "rust-v"@ + version,
        (forall|rest: Seq<char>| tag != #[trigger] ("rust-v"@ + rest)) ==> (release_version(
            tag,
        ) matches Err(e) && e.kind == ErrorKind::Other && e.message
            == "failed to parse latest release tag `"@ + tag + "`"@),
{
    law_only_a_prefix_is_stripped("rust-v"@ + version, "rust-v"@, version);
    law_only_a_prefix_is_stripped(tag, "rust-v"@, version);
    if let Ok(rest) = release_version(tag) {
        law_only_a_prefix_is_stripped(tag, "rust-v"@, rest);
    }
}

/// The desktop app's version is what its bundle's reader wrote, trimmed. A reader that could not be
/// run, that failed, or that wrote nothing or no UTF-8 gives none, and the message says so.
pub proof fn law_the_desktop_version_is_what_was_read(
    err: String,
    status: String,
    stdout: Vec<u8>,
    written: Seq<char>,
)
    ensures
        desktop_version(BundleRead::SpawnFailed { err }) matches Err(e) && e.kind
            == ErrorKind::Other && e.message
            == "failed to read installed Desktop Codex bundle version from `"@
            + "/Applications/Codex.app/Contents/Info.plist"@ + "`: "@ + err@,
        desktop_version(BundleRead::Exited { success: false, status, stdout }) matches Err(e)
            && e.kind == ErrorKind::Other && e.message
            == "reading installed Desktop Codex bundle version from `"@
            + "/Applications/Codex.app/Contents/Info.plist"@ + "` exited with "@ + status@,
        !valid_utf8(stdout@) ==> (desktop_version(
            BundleRead::Exited { success: true, status, stdout },
        ) matches Err(e) && e.kind == ErrorKind::Other && e.message
            == "installed Desktop Codex bundle version from `"@
            + "/Applications/Codex.app/Contents/Info.plist"@ + "` returned non-UTF8 output: "@
            + utf8_error_text(stdout@)),
        valid_utf8(stdout@) ==> desktop_version(
            BundleRead::Exited { success: true, status, stdout },
        ) == bundle_version(decode_utf8(stdout@)),
        trim_spec(written).len() > 0 ==> bundle_version(written) == Ok::<Seq<char>, ErrorView>(
            trim_spec(written),
        ),
        trim_spec(written).len() == 0 ==> (bundle_version(written) matches Err(e) && e.kind
            == ErrorKind::Other && e.message
            == "installed Desktop Codex bundle version output was empty"@),
{
}

/// The latest release's version is the one in the tag that the service names, where it answers with
/// a status of the two hundreds. Every other reply gives none, and the message says so.
pub proof fn law_the_latest_version_is_the_tags(status: u16, tag: String, err: String)
    ensures
        200 <= status <= 299 ==> latest_release(ReleaseReply::Response { status, tag: Ok(tag) })
            == release_version(tag@),
        200 <= status <= 299 ==> (latest_release(
            ReleaseReply::Response { status, tag: Err(err) },
        ) matches Err(e) && e.kind == ErrorKind::Other && e.message
            == "failed to parse latest Codex release metadata: "@ + err@),
        forall|named: Result<String, String>|
            status < 200 || status > 299 ==> (#[trigger] latest_release(
                ReleaseReply::Response { status, tag: named },
            ) matches Err(e) && e.kind == ErrorKind::Other && e.message
                == "latest Codex release metadata probe failed: HTTP "@ + status_text(status)),
        latest_release(ReleaseReply::SendFailed { err }) matches Err(e) && e.kind
            == ErrorKind::Other && e.message
            == "failed to fetch latest Codex release metadata: "@ + err@,
        latest_release(ReleaseReply::ReadFailed { err }) matches Err(e) && e.kind
            == ErrorKind::Other && e.message
            == "failed to read latest Codex release metadata: "@ + err@,
{
}

/// The steps of a lookup: a released build reports its version at once, and so does a source build
/// what it remembers. Else a source build asks the desktop app, then the latest release, and
/// remembers the first version it is told, or its own where it is told none.
pub proof fn law_a_lookup_takes_its_steps(
    build_version: Seq<char>,
    remembered: Seq<char>,
    told: Seq<char>,
    err: ErrorView,
)
    ensures
        build_version != "0.0.0"@ ==> first_step(build_version, None) == (StepView::Report {
            version: build_version,
        }) && first_step(build_version, Some(remembered)) == (StepView::Report {
            version: build_version,
        }),
        first_step("0.0.0"@, Some(remembered)) == (StepView::Report { version: remembered }),
        first_step("0.0.0"@, None) == StepView::AskDesktopApp,
        desktop_step(Ok(told)) == (StepView::RememberAndReport { version: told }),
        desktop_step(Err(err)) == StepView::AskLatestRelease,
        release_step(build_version, Ok(told)) == (StepView::RememberAndReport { version: told }),
        release_step(build_version, Err(err)) == (StepView::RememberAndReport {
            version: build_version,
        }),
{
}

/// The user agent of a released build is its own. Where it reports its own version nothing changes,
/// and where it reports another the first place that names its version behind a slash and before a
/// space names the other, and nothing else changes.
pub proof fn law_a_released_build_keeps_its_user_agent(
    build_version: Seq<char>,
    codex_user_agent: Seq<char>,
    version: Seq<char>,
    before: Seq<char>,
    after: Seq<char>,
)
    requires
        build_version != "0.0.0"@,
    ensures
        user_agent(build_version, codex_user_agent, build_version) == codex_user_agent,
        version != build_version && (forall|k: int|
            0 <= k && k + ("/"@ + build_version + " "@).len() <= codex_user_agent.len()
                ==> #[trigger] codex_user_agent.subrange(
                k,
                k + ("/"@ + build_version + " "@).len(),
            ) != "/"@ + build_version + " "@) ==> user_agent(
            build_version,
            codex_user_agent,
            version,
        ) == codex_user_agent,
        version != build_version && codex_user_agent == before + ("/"@ + build_version + " "@)
            + after && (forall|k: int|
            0 <= k < before.len() ==> #[trigger] codex_user_agent.subrange(
                k,
                k + ("/"@ + build_version + " "@).len(),
            ) != "/"@ + build_version + " "@) ==> user_agent(
            build_version,
            codex_user_agent,
            version,
        ) == before + ("/"@ + version + " "@) + after,
{
    let from = "/"@ + build_version + " "@;
    let to = "/"@ + version + " "@;
    let at = before.len() as int;
    law_one_place_is_replaced(codex_user_agent, from, to, at);
    if codex_user_agent == before + from + after {
        assert(codex_user_agent.subrange(at, at + from.len()) =~= from);
        assert(codex_user_agent.take(at) =~= before);
        assert(codex_user_agent.skip(at + from.len()) =~= after);
    }
}

/// The user agent of a source build names the desktop app in place of what stands before its first
/// slash, and the version it reports in place of the first place that names its own. Without a
/// slash it stays as it is.
pub proof fn law_a_source_build_names_the_desktop_app(
    name: Seq<char>,
    rest: Seq<char>,
    version: Seq<char>,
)
    requires
        !name.contains('/'),
    ensures
        user_agent("0.0.0"@, name + seq!['/'] + rest, "0.0.0"@) == "Codex Desktop/"@ + rest,
        version != "0.0.0"@ ==> user_agent("0.0.0"@, name + seq!['/'] + rest, version)
            == replace_first_spec("Codex Desktop/"@ + rest, "/0.0.0 "@, "/"@ + version + " "@),
        user_agent("0.0.0"@, name, version) == name,
{
    reveal_strlit("Codex Desktop");
    reveal_strlit("Codex Desktop/");
    reveal_strlit("/");
    reveal_strlit(" ");
    reveal_strlit("0.0.0");
    reveal_strlit("/0.0.0 ");
    law_what_follows_the_first(name, '/', rest);
    assert("Codex Desktop"@ + "/"@ + rest =~= "Codex Desktop/"@ + rest);
    assert("/"@ + "0.0.0"@ + " "@ =~= "/0.0.0 "@);
    let from = "/"@ + "0.0.0"@ + " "@;
    assert forall|k: int| 0 <= k && k + from.len() <= name.len() implies #[trigger] name.subrange(
        k,
        k + from.len(),
    ) != from by {
        if name.subrange(k, k + from.len()) == from {
            assert(name.subrange(k, k + from.len())[0] == from[0]);
            assert(name[k] == '/');
        }
    }
    law_one_place_is_replaced(name, from, "/"@ + version + " "@, 0);
}

/// Without a lookup, a released build tells the user agent of its own version, whatever is
/// remembered, and a source build that of the version it remembers, if it does.
pub proof fn law_a_cached_user_agent_needs_no_lookup(
    build_version: Seq<char>,
    codex_user_agent: Seq<char>,
    remembered: Option<Seq<char>>,
    version: Seq<char>,
)
    ensures
        build_version != "0.0.0"@ ==> cached_user_agent(build_version, codex_user_agent, remembered)
            == Some(codex_user_agent),
        cached_user_agent("0.0.0"@, codex_user_agent, None) is None,
        cached_user_agent("0.0.0"@, codex_user_agent, Some(version)) == Some(
            user_agent("0.0.0"@, codex_user_agent, version),
        ),
{
}

/// Only the version `0.0.0` is that of a build from source, which is taken for `Codex Desktop`. A
/// step is shown as it is, with its version.
pub proof fn law_steps_are_shown_as_they_are(build_version: Seq<char>, step: VersionStep)
    ensures
        is_dev_build(build_version) <==> build_version == "0.0.0"@,
        REMOTE_CONTROL_DESKTOP_ORIGINATOR@ == "Codex Desktop"@,
        step matches VersionStep::Report { version } ==> step@ == (StepView::Report {
            version: version@,
        }),
        step matches VersionStep::RememberAndReport { version } ==> step@ == (
        StepView::RememberAndReport { version: version@ }),
        step matches VersionStep::AskDesktopApp ==> step@ == StepView::AskDesktopApp,
        step matches VersionStep::AskLatestRelease ==> step@ == StepView::AskLatestRelease,
{
}

/// What the bundle's output reads as, or why it does not read, decides the desktop app's version.
/// An answer about the latest release goes by its status and its tag.
pub proof fn law_answers_decide_the_version(
    output: Seq<char>,
    why: Seq<char>,
    status: u16,
    shown_status: Seq<char>,
    named: Result<String, String>,
    tag: String,
    err: String,
)
    ensures
        decoded_bundle_version(Ok(output)) == bundle_version(output),
        decoded_bundle_version(Err(why)) matches Err(e) && e.kind == ErrorKind::Other && e.message
            == "installed Desktop Codex bundle version from `"@
            + "/Applications/Codex.app/Contents/Info.plist"@ + "` returned non-UTF8 output: "@ + why,
        200 <= status <= 299 ==> answered_release(status, shown_status, Ok(tag)) == release_version(
            tag@,
        ),
        200 <= status <= 299 ==> (answered_release(status, shown_status, Err(err)) matches Err(e)
            && e.kind == ErrorKind::Other && e.message
            == "failed to parse latest Codex release metadata: "@ + err@),
        status < 200 || status > 299 ==> (answered_release(status, shown_status, named) matches Err(
            e,
        ) && e.kind == ErrorKind::Other && e.message
            == "latest Codex release metadata probe failed: HTTP "@ + shown_status),
{
}

} // verus!

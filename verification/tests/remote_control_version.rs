use codex_session_kit::remote_control::error::{ErrorKind, RemoteControlError};
use codex_session_kit::remote_control::version::{
    answered_release_version, cached_remote_control_user_agent, decoded_desktop_app_version,
    desktop_app_version, desktop_version_answered, extract_desktop_app_bundle_version,
    extract_release_version, latest_release_version, release_version_answered,
    remote_control_originator, remote_control_user_agent_with_version, start_version_lookup,
    BundleRead, ReleaseReply, VersionStep, DEV_BUILD_VERSION_SENTINEL,
};

const TEST_DESKTOP_APP_SERVER_VERSION: &str = "26.616.41845";
const TEST_LATEST_STABLE_RELEASE_TAG: &str = "rust-v0.141.0";

fn expected_reported_app_server_version_for_tests(build_version: &str) -> String {
    if build_version == DEV_BUILD_VERSION_SENTINEL {
        TEST_DESKTOP_APP_SERVER_VERSION.to_string()
    } else {
        build_version.to_string()
    }
}

/// Follows the steps to the version to report, with a desktop app installed.
fn reported_app_server_version(build_version: &str, remembered: &mut Option<String>) -> String {
    let mut step = start_version_lookup(build_version, remembered.as_deref());
    loop {
        step = match step {
            VersionStep::Report { version } => return version,
            VersionStep::RememberAndReport { version } => {
                remembered.get_or_insert(version.clone());
                return version;
            }
            VersionStep::AskDesktopApp => {
                desktop_version_answered(Ok(TEST_DESKTOP_APP_SERVER_VERSION.to_string()))
            }
            VersionStep::AskLatestRelease => release_version_answered(
                build_version,
                extract_release_version(TEST_LATEST_STABLE_RELEASE_TAG),
            ),
        };
    }
}

fn other<T>(message: &str) -> Result<T, RemoteControlError> {
    Err(RemoteControlError {
        kind: ErrorKind::Other,
        message: message.to_string(),
    })
}

#[test]
fn extract_release_version_accepts_rust_prefix() {
    assert_eq!(
        extract_release_version("rust-v0.141.0").expect("release tag should parse"),
        "0.141.0"
    );
}

#[test]
fn extract_desktop_app_bundle_version_accepts_plutil_output() {
    assert_eq!(
        extract_desktop_app_bundle_version("26.616.41845\n")
            .expect("bundle version output should parse"),
        "26.616.41845"
    );
}

#[test]
fn reported_app_server_version_prefers_desktop_app_version_for_source_builds() {
    for build_version in [DEV_BUILD_VERSION_SENTINEL, "1.2.3"] {
        let version = reported_app_server_version(build_version, &mut None);

        if build_version == DEV_BUILD_VERSION_SENTINEL {
            assert_eq!(version, TEST_DESKTOP_APP_SERVER_VERSION);
        } else {
            assert_eq!(version, build_version);
        }
    }
}

#[test]
fn remote_control_user_agent_uses_reported_version_for_source_builds() {
    for build_version in [DEV_BUILD_VERSION_SENTINEL, "1.2.3"] {
        let codex_user_agent = format!("codex_cli_rs/{build_version} (Linux; x86_64) term");
        let version = reported_app_server_version(build_version, &mut None);
        let user_agent =
            remote_control_user_agent_with_version(build_version, &codex_user_agent, &version);
        let expected_version = expected_reported_app_server_version_for_tests(build_version);

        assert!(user_agent.contains(&format!("/{expected_version} ")));
        if build_version == DEV_BUILD_VERSION_SENTINEL {
            assert!(user_agent.starts_with("Codex Desktop/"));
            assert_eq!(
                remote_control_originator(build_version, "codex_cli_rs".to_string()),
                "Codex Desktop"
            );
        }
    }
}

#[test]
fn cached_remote_control_user_agent_matches_resolved_version() {
    for build_version in [DEV_BUILD_VERSION_SENTINEL, "1.2.3"] {
        let codex_user_agent = format!("codex_cli_rs/{build_version} (Linux; x86_64) term");
        let mut remembered = None;
        let version = reported_app_server_version(build_version, &mut remembered);
        let user_agent =
            remote_control_user_agent_with_version(build_version, &codex_user_agent, &version);

        assert_eq!(
            cached_remote_control_user_agent(
                build_version,
                &codex_user_agent,
                remembered.as_deref()
            ),
            Some(user_agent)
        );
    }
}

#[test]
fn without_a_lookup_a_source_build_tells_no_user_agent() {
    assert_eq!(
        cached_remote_control_user_agent("0.0.0", "codex/0.0.0 (x)", None),
        None
    );
}

#[test]
fn user_agents_are_rewritten_once() {
    assert_eq!(
        remote_control_user_agent_with_version("0.0.0", "a/0.0.0 b/0.0.0 c", "9"),
        "Codex Desktop/9 b/0.0.0 c"
    );
    assert_eq!(
        remote_control_user_agent_with_version("0.0.0", "no slash", "9"),
        "no slash"
    );
    assert_eq!(
        remote_control_user_agent_with_version("0.0.0", "a/0.0.0 b", "0.0.0"),
        "Codex Desktop/0.0.0 b"
    );
    assert_eq!(
        remote_control_user_agent_with_version("1.2.3", "a/1.2.3 b", "9"),
        "a/9 b"
    );
    assert_eq!(
        remote_control_user_agent_with_version("1.2.3", "a/1.2.34 b", "9"),
        "a/1.2.34 b"
    );
}

#[test]
fn a_released_build_names_its_own_originator() {
    assert_eq!(remote_control_originator("1.2.3", "me".to_string()), "me");
}

#[test]
fn a_source_build_falls_back_step_by_step() {
    assert_eq!(start_version_lookup("0.0.0", None), VersionStep::AskDesktopApp);
    assert_eq!(
        start_version_lookup("0.0.0", Some("7")),
        VersionStep::Report {
            version: "7".to_string()
        }
    );
    assert_eq!(
        desktop_version_answered(other("none")),
        VersionStep::AskLatestRelease
    );
    assert_eq!(
        release_version_answered("0.0.0", Ok("8".to_string())),
        VersionStep::RememberAndReport {
            version: "8".to_string()
        }
    );
    assert_eq!(
        release_version_answered("0.0.0", other("none")),
        VersionStep::RememberAndReport {
            version: "0.0.0".to_string()
        }
    );
}

#[test]
fn a_remembered_version_is_kept() {
    let mut remembered = Some("7".to_string());
    assert_eq!(reported_app_server_version("0.0.0", &mut remembered), "7");
    assert_eq!(remembered, Some("7".to_string()));
}

#[test]
fn tags_and_bundles_without_a_version_are_refused() {
    assert_eq!(
        extract_release_version("v1"),
        other("failed to parse latest release tag `v1`")
    );
    assert_eq!(
        extract_desktop_app_bundle_version(" \n"),
        other("installed Desktop Codex bundle version output was empty")
    );
}

#[test]
fn the_desktop_app_is_read_from_its_bundle() {
    let exited = |success: bool, stdout: &[u8]| BundleRead::Exited {
        success,
        status: "exit status: 1".to_string(),
        stdout: stdout.to_vec(),
    };
    assert_eq!(
        desktop_app_version(exited(true, b" 1.2 \n")),
        Ok("1.2".to_string())
    );
    assert_eq!(
        desktop_app_version(exited(false, b"1.2")),
        other("reading installed Desktop Codex bundle version from `/Applications/Codex.app/Contents/Info.plist` exited with exit status: 1")
    );
    assert_eq!(
        desktop_app_version(BundleRead::SpawnFailed {
            err: "gone".to_string()
        }),
        other("failed to read installed Desktop Codex bundle version from `/Applications/Codex.app/Contents/Info.plist`: gone")
    );
    let refused = String::from_utf8(vec![b'1', 0xff]).expect_err("bytes should be refused");
    assert_eq!(
        desktop_app_version(exited(true, b"1\xff")),
        other(&format!("installed Desktop Codex bundle version from `/Applications/Codex.app/Contents/Info.plist` returned non-UTF8 output: {refused}"))
    );
    assert_eq!(
        decoded_desktop_app_version(Err("odd".to_string())),
        other("installed Desktop Codex bundle version from `/Applications/Codex.app/Contents/Info.plist` returned non-UTF8 output: odd")
    );
}

#[test]
fn the_latest_release_is_read_from_its_tag() {
    let reply = |status: u16, tag: Result<&str, &str>| ReleaseReply::Response {
        status,
        tag: tag.map(str::to_string).map_err(str::to_string),
    };
    assert_eq!(
        latest_release_version(reply(200, Ok("rust-v1.0"))),
        Ok("1.0".to_string())
    );
    assert_eq!(
        latest_release_version(reply(403, Ok("rust-v1.0"))),
        other("latest Codex release metadata probe failed: HTTP 403 Forbidden")
    );
    assert_eq!(
        latest_release_version(reply(200, Err("no tag"))),
        other("failed to parse latest Codex release metadata: no tag")
    );
    assert_eq!(
        latest_release_version(reply(200, Ok("1.0"))),
        other("failed to parse latest release tag `1.0`")
    );
    assert_eq!(
        latest_release_version(ReleaseReply::SendFailed {
            err: "offline".to_string()
        }),
        other("failed to fetch latest Codex release metadata: offline")
    );
    assert_eq!(
        latest_release_version(ReleaseReply::ReadFailed {
            err: "cut".to_string()
        }),
        other("failed to read latest Codex release metadata: cut")
    );
    assert_eq!(
        answered_release_version(500, "500 Odd", Ok("rust-v1".to_string())),
        other("latest Codex release metadata probe failed: HTTP 500 Odd")
    );
}

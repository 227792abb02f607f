use codex_session_kit::apply_patch::{
    apply_patch, convert_apply_patch_to_protocol, difftastic_suffix, difftastic_suffix_of,
    display_path_for_difftastic,
    maybe_embed_difftastic_render, show_difftastic_output, show_difftastic_text, show_path,
    try_render_difftastic,
    ApplyPatchAction, ApplyPatchFileChange, ApplyPatchRuntimeInvocation, ExecApprovalRequirement,
    FileChange, FunctionCallError, InternalApplyPatchInvocation, SafetyCheck,
    DIFFTASTIC_SPLIT_MARKER,
};

fn action() -> ApplyPatchAction {
    ApplyPatchAction {
        changes: vec![
            (
                "/w/a".to_string(),
                ApplyPatchFileChange::Add {
                    content: "new".to_string(),
                },
            ),
            (
                "/w/b".to_string(),
                ApplyPatchFileChange::Delete {
                    content: "old".to_string(),
                },
            ),
            (
                "/w/c".to_string(),
                ApplyPatchFileChange::Update {
                    unified_diff: "@@".to_string(),
                    move_path: Some("/w/d".to_string()),
                    new_content: "x".to_string(),
                },
            ),
        ],
        cwd: "/w".to_string(),
    }
}

#[test]
fn an_approved_patch_goes_to_the_runtime() {
    for user_explicitly_approved in [false, true] {
        assert_eq!(
            apply_patch(
                action(),
                SafetyCheck::AutoApprove {
                    user_explicitly_approved
                }
            ),
            InternalApplyPatchInvocation::DelegateToRuntime(ApplyPatchRuntimeInvocation {
                action: action(),
                auto_approved: !user_explicitly_approved,
                exec_approval_requirement: ExecApprovalRequirement::Skip {
                    bypass_sandbox: false,
                    proposed_execpolicy_amendment: None,
                },
            })
        );
    }
}

#[test]
fn a_doubtful_patch_goes_to_the_runtime_for_approval() {
    assert_eq!(
        apply_patch(action(), SafetyCheck::AskUser),
        InternalApplyPatchInvocation::DelegateToRuntime(ApplyPatchRuntimeInvocation {
            action: action(),
            auto_approved: false,
            exec_approval_requirement: ExecApprovalRequirement::NeedsApproval {
                reason: None,
                proposed_execpolicy_amendment: None,
            },
        })
    );
}

#[test]
fn a_rejected_patch_is_told_to_the_model() {
    assert_eq!(
        apply_patch(
            action(),
            SafetyCheck::Reject {
                reason: "outside".to_string()
            }
        ),
        InternalApplyPatchInvocation::Output(Err(FunctionCallError::RespondToModel(
            "patch rejected: outside".to_string()
        )))
    );
}

#[test]
fn changes_are_told_file_by_file() {
    let told = |rendering: Option<&str>, diff: &str| {
        assert_eq!(
            convert_apply_patch_to_protocol(
                &action(),
                &[
                    Some("unused".to_string()),
                    None,
                    rendering.map(str::to_string)
                ],
            ),
            vec![
                (
                    "/w/a".to_string(),
                    FileChange::Add {
                        content: "new".to_string()
                    }
                ),
                (
                    "/w/b".to_string(),
                    FileChange::Delete {
                        content: "old".to_string()
                    }
                ),
                (
                    "/w/c".to_string(),
                    FileChange::Update {
                        unified_diff: diff.to_string(),
                        move_path: Some("/w/d".to_string()),
                    }
                ),
            ]
        );
    };
    told(None, "@@");
    told(Some("shown"), "@@\n\u{1e}CODEX_DIFFTASTIC\u{1e}\nshown");
}

#[test]
fn an_embedded_rendering_can_be_split_off() {
    let embedded = maybe_embed_difftastic_render(Some("r\n\u{1e}"), "diff\n");
    assert_eq!(
        embedded.split_once(DIFFTASTIC_SPLIT_MARKER),
        Some(("diff\n", "r\n\u{1e}"))
    );
    assert_eq!(maybe_embed_difftastic_render(None, "diff\n"), "diff\n");
}

#[test]
fn the_suffix_is_that_of_the_path_moved_to() {
    assert_eq!(difftastic_suffix(None, Some(Some("rs"))), ".rs");
    assert_eq!(difftastic_suffix(Some(Some("py")), Some(Some("rs"))), ".py");
    assert_eq!(difftastic_suffix(Some(None), Some(Some("rs"))), "");
    assert_eq!(difftastic_suffix(None, Some(None)), "");
    assert_eq!(difftastic_suffix(None, None), "");
}

#[test]
fn paths_are_shown_under_the_directory() {
    assert_eq!(display_path_for_difftastic("/w", "/w/src/a.rs"), "src/a.rs");
    assert_eq!(display_path_for_difftastic("/w/", "/w/a"), "a");
    assert_eq!(display_path_for_difftastic("/w", "/w"), "");
    assert_eq!(display_path_for_difftastic("/", "/w/.x"), "w/.x");
    assert_eq!(display_path_for_difftastic("a b/..", "a b/../\u{e4}"), "\u{e4}");
    assert_eq!(display_path_for_difftastic("/w/.", "/w/./a//b"), "a//b");
    assert_eq!(display_path_for_difftastic("/w", "/work/a"), "/work/a");
    assert_eq!(display_path_for_difftastic("w", "/w/a"), "/w/a");
    assert_eq!(show_path(Some("a".to_string()), "/w/a"), "a");
    assert_eq!(show_path(None, "/w/a"), "/w/a");
}

#[test]
fn the_output_of_the_differ_names_the_files() {
    assert_eq!(
        show_difftastic_output(
            b"/t/old.rs --- /t/new.rs\n/t/old.rs \xff",
            "/t/old.rs",
            "/t/new.rs",
            "a.rs",
            "b.rs"
        ),
        Some("a.rs --- b.rs\na.rs \u{fffd}".to_string())
    );
    assert_eq!(show_difftastic_output(b" \n", "o", "n", "a", "b"), None);
    // What stands for the old file is searched for the new one too.
    assert_eq!(
        show_difftastic_text("o", "o", "n", "n", "x"),
        Some("x".to_string())
    );
}

#[test]
fn a_rendering_names_where_the_file_was_and_moves_to() {
    let render = |move_path: Option<&str>| {
        try_render_difftastic(b"/t/o --- /t/n", "/t/o", "/t/n", "/w", "/w/a", move_path)
    };
    assert_eq!(render(None), Some("a --- a".to_string()));
    assert_eq!(render(Some("/w/b")), Some("a --- b".to_string()));
    assert_eq!(render(Some("/x/b")), Some("a --- /x/b".to_string()));
    assert_eq!(
        try_render_difftastic(b"", "/t/o", "/t/n", "/w", "/w/a", None),
        None
    );
}

#[test]
fn the_suffix_is_taken_from_the_file_name() {
    assert_eq!(difftastic_suffix_of("src/a.rs", None), ".rs");
    assert_eq!(difftastic_suffix_of("a.tar.gz", None), ".gz");
    assert_eq!(difftastic_suffix_of("x.y/.bashrc", None), "");
    assert_eq!(difftastic_suffix_of("x.y/a.", None), ".");
    assert_eq!(difftastic_suffix_of("a.rs/./", None), ".rs");
    assert_eq!(difftastic_suffix_of("a.rs/..", None), "");
    assert_eq!(difftastic_suffix_of("/", None), "");
    assert_eq!(difftastic_suffix_of("a.rs", Some("b.py")), ".py");
    assert_eq!(difftastic_suffix_of("a.rs", Some("b")), ".rs");
}

/// The components of a path without backslashes, colons and two leading slashes.
fn components(path: &str) -> Vec<&str> {
    let mut all: Vec<&str> = Vec::new();
    if path.starts_with('/') {
        all.push("/");
    } else if path.split('/').next() == Some(".") {
        all.push(".");
    }
    all.extend(path.split('/').filter(|piece| !piece.is_empty() && *piece != "."));
    all
}

#[test]
fn what_is_left_of_a_path_are_its_other_components() {
    let paths = [
        "", ".", "/", "./", "a", "./a", "././a", "a/", "a//", "a/.", "/a", "/a/", "/./a", "a/b",
        "a//b", "a/./b", "./a/./b//", "/a/b", "/a//b/.", "..", "a/..", "a/../b", "../a", ".a",
        "a/.b/...", "/..", "ab", "/ab/c", "a b/\u{e4}",
    ];
    for path in paths {
        for dir in paths {
            let (all, first) = (components(path), components(dir));
            let shown = display_path_for_difftastic(dir, path);
            assert!(path.contains(&shown), "{dir} {path} {shown}");
            if all.starts_with(&first) {
                assert_eq!(components(&shown), all[first.len()..], "{dir} {path}");
            } else {
                assert_eq!(shown, path);
            }
        }
    }
}

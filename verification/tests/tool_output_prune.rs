use codex_session_kit::context::exec_completion::{ExecCompletion, ExecKind};
use codex_session_kit::context::ContextualUserFragment;
use codex_session_kit::protocol::{
    ChatMessageMetadata, ContentItem, ContentItemKind, FunctionCallOutputBody,
    FunctionCallOutputPayload, ResponseItem,
};
use codex_session_kit::tool_output_prune::{
    is_user_input, prune, prune_with_tokens, should_protect_tool, PRUNE_PLACEHOLDER,
};

fn approx_token_count(text: &str) -> usize {
    text.len().div_ceil(4)
}

fn user_message(text: &str) -> ResponseItem {
    ResponseItem::Message {
        id: None,
        role: "user".to_string(),
        content: vec![ContentItem::InputText {
            text: text.to_string(),
        }],
        phase: None,
        internal_chat_message_metadata_passthrough: None,
    }
}

fn message_of_kinds(role: &str, kinds: &[&str]) -> ResponseItem {
    ResponseItem::Message {
        id: None,
        role: role.to_string(),
        content: Vec::new(),
        phase: None,
        internal_chat_message_metadata_passthrough: Some(ChatMessageMetadata {
            content_item_kinds: Some(
                kinds
                    .iter()
                    .map(|kind| ContentItemKind(kind.to_string()))
                    .collect(),
            ),
        }),
    }
}

fn function_call(call_id: &str, name: &str) -> ResponseItem {
    ResponseItem::FunctionCall {
        id: None,
        name: name.to_string(),
        namespace: None,
        arguments: "{}".to_string(),
        encrypted_function_args: None,
        call_id: call_id.to_string(),
        internal_chat_message_metadata_passthrough: None,
    }
}

fn function_call_output(call_id: &str, content: &str) -> ResponseItem {
    function_output(Some(call_id), content, Some(true))
}

fn function_output(call_id: Option<&str>, content: &str, success: Option<bool>) -> ResponseItem {
    ResponseItem::FunctionCallOutput {
        id: None,
        call_id: call_id.map(str::to_string),
        name: None,
        namespace: None,
        output: FunctionCallOutputPayload {
            body: FunctionCallOutputBody::Text(content.to_string()),
            success,
        },
        internal_chat_message_metadata_passthrough: None,
    }
}

fn custom_call(call_id: &str, name: &str) -> ResponseItem {
    ResponseItem::CustomToolCall {
        id: None,
        call_id: call_id.to_string(),
        name: name.to_string(),
        input: "in".to_string(),
        rest: "{\"status\":\"completed\"}".to_string(),
    }
}

fn custom_output(call_id: &str, content: &str) -> ResponseItem {
    ResponseItem::CustomToolCallOutput {
        id: Some("o1".to_string()),
        call_id: call_id.to_string(),
        output: FunctionCallOutputPayload {
            body: FunctionCallOutputBody::Text(content.to_string()),
            success: None,
        },
        rest: "{\"name\":\"t\"}".to_string(),
    }
}

fn output_text(item: &ResponseItem) -> &str {
    match item {
        ResponseItem::FunctionCallOutput { output, .. } => output.text_content().unwrap_or(""),
        ResponseItem::CustomToolCallOutput { output, .. } => output.text_content().unwrap_or(""),
        other => panic!("unexpected item: {other:?}"),
    }
}

#[test]
fn does_not_prune_when_below_minimum() {
    let items = vec![
        user_message("u1"),
        function_call("c1", "shell"),
        function_call_output("c1", "small output"),
        user_message("u2"),
    ];

    let pruned = prune(&items, approx_token_count);

    assert_eq!(pruned, items);
}

#[test]
fn prunes_older_tool_outputs_past_protect_window() {
    let big = "word ".repeat(60_000);
    let small = "word ".repeat(10_000);
    let items = vec![
        function_call("c_old", "shell"),
        function_call_output("c_old", &big),
        user_message("u1"),
        function_call("c_new", "shell"),
        function_call_output("c_new", &small),
        user_message("u2"),
    ];

    let pruned = prune(&items, approx_token_count);

    let old_output = match &pruned[1] {
        ResponseItem::FunctionCallOutput { output, .. } => output.text_content().unwrap_or(""),
        other => panic!("unexpected item: {other:?}"),
    };
    assert_eq!(old_output, PRUNE_PLACEHOLDER);

    let new_output = match &pruned[4] {
        ResponseItem::FunctionCallOutput { output, .. } => output.text_content().unwrap_or(""),
        other => panic!("unexpected item: {other:?}"),
    };
    assert_eq!(new_output, small);
}

#[test]
fn does_not_prune_apply_patch_outputs() {
    let big = "word ".repeat(60_000);
    let small = "word ".repeat(10_000);
    let items = vec![
        function_call("c_old", "apply_patch"),
        function_call_output("c_old", &big),
        user_message("u1"),
        function_call("c_new", "shell"),
        function_call_output("c_new", &small),
        user_message("u2"),
    ];

    let pruned = prune(&items, approx_token_count);

    assert_eq!(pruned, items);
}

/// Three outputs of one tool, the oldest first, before two user inputs.
fn three_outputs() -> Vec<ResponseItem> {
    vec![
        custom_call("c1", "shell"),
        custom_output("c1", "oldest"),
        function_call("c2", "shell"),
        function_call_output("c2", "middle"),
        function_call("c3", "shell"),
        function_call_output("c3", "newest"),
        user_message("u1"),
        user_message("u2"),
    ]
}

#[test]
fn the_window_and_the_minimum_are_exact() {
    let items = three_outputs();

    // The two newer outputs fill the window, the oldest one frees more than the minimum.
    let pruned = prune_with_tokens(&items, &[0, 20_001, 0, 20_000, 0, 20_000, 0, 0]);
    assert_eq!(output_text(&pruned[1]), PRUNE_PLACEHOLDER);
    assert_eq!(output_text(&pruned[3]), "middle");
    assert_eq!(output_text(&pruned[5]), "newest");

    // The minimum itself is not enough.
    let pruned = prune_with_tokens(&items, &[0, 20_000, 0, 20_000, 0, 20_000, 0, 0]);
    assert_eq!(pruned, items);

    // The output that leaves the window goes with its whole size.
    let pruned = prune_with_tokens(&items, &[0, 1, 0, 20_001, 0, 20_000, 0, 0]);
    assert_eq!(output_text(&pruned[1]), PRUNE_PLACEHOLDER);
    assert_eq!(output_text(&pruned[3]), PRUNE_PLACEHOLDER);
    assert_eq!(output_text(&pruned[5]), "newest");
}

#[test]
fn huge_sizes_do_not_overflow() {
    let items = three_outputs();
    let most = usize::MAX;
    let pruned = prune_with_tokens(&items, &[0, most, 0, most, 0, most, 0, 0]);
    assert_eq!(output_text(&pruned[1]), PRUNE_PLACEHOLDER);
    assert_eq!(output_text(&pruned[3]), PRUNE_PLACEHOLDER);
    assert_eq!(output_text(&pruned[5]), PRUNE_PLACEHOLDER);
}

#[test]
fn pruning_twice_changes_nothing_more() {
    let items = three_outputs();
    let once = prune_with_tokens(&items, &[0, 50_000, 0, 30_000, 0, 30_000, 0, 0]);
    let twice = prune_with_tokens(&once, &[0, 9, 0, 9, 0, 30_000, 0, 0]);
    assert_ne!(once, items);
    assert_eq!(twice, once);
}

#[test]
fn a_cleared_output_keeps_its_other_fields() {
    let items = three_outputs();
    let pruned = prune_with_tokens(&items, &[0, 50_000, 0, 30_000, 0, 30_000, 0, 0]);
    assert_eq!(
        pruned[1],
        ResponseItem::CustomToolCallOutput {
            id: Some("o1".to_string()),
            call_id: "c1".to_string(),
            output: FunctionCallOutputPayload {
                body: FunctionCallOutputBody::Text(PRUNE_PLACEHOLDER.to_string()),
                success: None,
            },
            rest: "{\"name\":\"t\"}".to_string(),
        }
    );
    match &pruned[3] {
        ResponseItem::FunctionCallOutput { output, .. } => assert_eq!(output.success, Some(true)),
        other => panic!("unexpected item: {other:?}"),
    }
    assert_eq!(pruned[0], items[0]);
    assert_eq!(pruned[7], items[7]);
}

#[test]
fn recent_failed_and_unnamed_outputs_stay() {
    let items = vec![
        function_output(Some("c1"), "failed", Some(false)),
        function_output(None, "unnamed", Some(true)),
        user_message("u1"),
        function_call_output("c2", "recent"),
        user_message("u2"),
        function_call_output("c3", "last"),
    ];
    let pruned = prune_with_tokens(&items, &[100_000, 100_000, 0, 100_000, 0, 100_000]);
    assert_eq!(pruned, items);

    // An output without a known call is cleared, and so is one whose success is not known.
    let items = vec![
        function_output(Some("c1"), "unknown call", None),
        user_message("u1"),
        user_message("u2"),
    ];
    let pruned = prune_with_tokens(&items, &[100_000, 0, 0]);
    assert_eq!(output_text(&pruned[0]), PRUNE_PLACEHOLDER);
}

#[test]
fn the_last_call_with_an_id_names_the_tool() {
    let items = vec![
        function_call("c1", "shell"),
        function_call_output("c1", "kept"),
        custom_call("c1", "apply_patch"),
        user_message("u1"),
        user_message("u2"),
    ];
    assert_eq!(prune_with_tokens(&items, &[0, 100_000, 0, 0, 0]), items);

    let items = vec![
        custom_call("c1", "apply_patch"),
        custom_output("c1", "cleared"),
        function_call("c1", "shell"),
        user_message("u1"),
        user_message("u2"),
    ];
    let pruned = prune_with_tokens(&items, &[0, 100_000, 0, 0, 0]);
    assert_eq!(output_text(&pruned[1]), PRUNE_PLACEHOLDER);
}

#[test]
fn structured_outputs_are_counted_by_their_text() {
    let structured = |text: Option<String>| ResponseItem::FunctionCallOutput {
        id: None,
        call_id: Some("c1".to_string()),
        name: None,
        namespace: None,
        output: FunctionCallOutputPayload {
            body: FunctionCallOutputBody::ContentItems {
                raw: "[]".to_string(),
                text,
            },
            success: None,
        },
        internal_chat_message_metadata_passthrough: None,
    };
    let big = "word ".repeat(60_000);
    let items = vec![structured(Some(big)), user_message("u1"), user_message("u2")];
    let pruned = prune(&items, approx_token_count);
    assert_eq!(output_text(&pruned[0]), PRUNE_PLACEHOLDER);

    let items = vec![structured(None), user_message("u1"), user_message("u2")];
    assert_eq!(prune(&items, |_: &str| 100_000), items);
}

#[test]
fn user_input_goes_by_role_and_kinds() {
    assert!(is_user_input(&user_message("u")));
    assert!(is_user_input(&message_of_kinds("user", &["exec.completion", "user.text"])));
    assert!(!is_user_input(&message_of_kinds("user", &["exec.completion"])));
    assert!(!is_user_input(&message_of_kinds("user", &[])));
    assert!(!is_user_input(&message_of_kinds("user", &["users.text", "user"])));
    assert!(!is_user_input(&message_of_kinds("assistant", &["user.text"])));
    assert!(!is_user_input(&function_call("c1", "user")));
    assert!(!is_user_input(&ResponseItem::Other {
        raw: "{}".to_string()
    }));
}

#[test]
fn context_fragments_are_no_user_input() {
    let fragment = ExecCompletion::with_shown_output(ExecKind::Command, "c", 1, &[], 0, "");
    let message = message_of_kinds(fragment.role(), &[fragment.content_kind().0.as_str()]);
    assert!(!is_user_input(&message));
}

#[test]
fn only_apply_patch_is_protected() {
    assert!(should_protect_tool(Some("apply_patch")));
    assert!(!should_protect_tool(Some("shell")));
    assert!(!should_protect_tool(None));
}

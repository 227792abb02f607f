use codex_session_kit::context::exec_completion::{ExecCompletion, ExecKind, EXEC_OUTPUT_TOKENS};
use codex_session_kit::context::monitor_output::MonitorOutput;
use codex_session_kit::context::resource_update::{ResourceUpdate, RESOURCE_UPDATE_TOKENS};
use codex_session_kit::context::{ContextualUserFragment, TruncationPolicy};
use codex_session_kit::mcp_notifications::{
    log_message, log_message_text, resource_injection, take_pending_injections, LogSeverity, LoggingLevel,
    PendingInjections, ResourceContents,
};

fn command() -> Vec<String> {
    vec!["git".to_string(), "log".to_string(), "-1".to_string()]
}

/// Shows how it was called.
fn mark(text: &str, policy: TruncationPolicy) -> String {
    format!("{policy:?}:{text}")
}

#[test]
fn the_end_of_a_process_is_told() {
    let completion = ExecCompletion::new(
        ExecKind::Command,
        "call",
        -12,
        &command(),
        130,
        "line\n",
        mark,
    );
    assert_eq!(
        completion.body(),
        "<exec-command-completed call-id=\"call\" process-id=\"-12\" exit-code=\"130\">\n<command>git log -1</command>\n<output>\nTokens(8000):line\n\n</output>\n</exec-command-completed>"
    );
    assert_eq!(EXEC_OUTPUT_TOKENS, 8_000);
    assert_eq!(completion.role(), "user");
    assert_eq!(completion.content_kind().0, "exec.completion");
    assert_eq!(completion.markers(), ("", ""));
    assert_eq!(ExecCompletion::type_markers(), ("", ""));
}

#[test]
fn the_end_of_a_monitor_has_its_own_tag() {
    let completion = ExecCompletion::with_shown_output(ExecKind::Monitor, "c", 1, &[], 0, "");
    assert_eq!(
        completion.body(),
        "<monitor-command-ended call-id=\"c\" process-id=\"1\" exit-code=\"0\">\n<command></command>\n<output>\n\n</output>\n</monitor-command-ended>"
    );
    assert_eq!(ExecKind::Command.tag(), "exec-command-completed");
    assert_eq!(ExecKind::Monitor.tag(), "monitor-command-ended");
}

#[test]
fn the_output_of_a_monitor_is_told_in_full() {
    let output = MonitorOutput::new("c", i32::MIN, &command(), "x");
    assert_eq!(
        output.body(),
        "<monitor-command-output call-id=\"c\" process-id=\"-2147483648\">\n<command>git log -1</command>\n<output>\nx\n</output>\n</monitor-command-output>"
    );
    assert_eq!(output.role(), "user");
    assert_eq!(output.content_kind().0, "exec.monitor_output");
    assert_eq!(output.markers(), ("", ""));
    assert_eq!(MonitorOutput::type_markers(), ("", ""));
}

#[test]
fn an_updated_resource_is_truncated() {
    let update = ResourceUpdate::new("text".to_string(), mark);
    assert_eq!(update.body(), "Tokens(10000):text");
    assert_eq!(RESOURCE_UPDATE_TOKENS, 10_000);
    assert_eq!(update.role(), "user");
    assert_eq!(update.content_kind().0, "mcp.resource_update");
    assert_eq!(update.markers(), ("", ""));
    assert_eq!(ResourceUpdate::type_markers(), ("", ""));
}

#[test]
fn injections_are_taken_once_and_in_order() {
    let mut pending = PendingInjections::new();
    assert!(take_pending_injections(&mut pending).is_empty());
    pending.push("first".to_string());
    pending.push("second".to_string());
    assert_eq!(take_pending_injections(&mut pending), vec!["first", "second"]);
    assert!(take_pending_injections(&mut pending).is_empty());
    pending.push("third".to_string());
    assert_eq!(take_pending_injections(&mut pending), vec!["third"]);
}

#[test]
fn an_updated_resource_is_injected_with_its_contents() {
    let contents = vec![
        ResourceContents::TextResourceContents {
            text: "hello".to_string(),
        },
        ResourceContents::BlobResourceContents {
            blob: "aGk=\u{e4}".to_string(),
            mime_type: None,
        },
        ResourceContents::BlobResourceContents {
            blob: String::new(),
            mime_type: Some("image/png".to_string()),
        },
    ];
    assert_eq!(
        resource_injection(Some("srv"), "file:///a", Ok(contents)),
        "<resource-updated server=\"srv\" uri=\"file:///a\" />\n\
         <resource server=\"srv\" uri=\"file:///a\">\nhello\n</resource>\n\
         <resource server=\"srv\" uri=\"file:///a\" type=\"blob\" mime-type=\"application/octet-stream\" size=\"6\">\n[Binary resource - use ReadMcpResourceTool to retrieve if needed]\n</resource>\n\
         <resource server=\"srv\" uri=\"file:///a\" type=\"blob\" mime-type=\"image/png\" size=\"0\">\n[Binary resource - use ReadMcpResourceTool to retrieve if needed]\n</resource>"
    );
    assert_eq!(
        resource_injection(None, "u", Ok(Vec::new())),
        "<resource-updated server=\"unknown\" uri=\"u\" />\n"
    );
}

#[test]
fn a_resource_that_cannot_be_read_is_injected_with_the_reason() {
    assert_eq!(
        resource_injection(Some("srv"), "u", Err("Closed".to_string())),
        "<resource-updated server=\"srv\" uri=\"u\" />\n<resource server=\"srv\" uri=\"u\">\n[error reading resource: Closed]\n</resource>"
    );
}

#[test]
fn log_messages_keep_their_level() {
    let severity = |level: LoggingLevel| log_message_text(level, None, "d").0;
    assert_eq!(severity(LoggingLevel::Emergency), LogSeverity::Error);
    assert_eq!(severity(LoggingLevel::Alert), LogSeverity::Error);
    assert_eq!(severity(LoggingLevel::Critical), LogSeverity::Error);
    assert_eq!(severity(LoggingLevel::Error), LogSeverity::Error);
    assert_eq!(severity(LoggingLevel::Warning), LogSeverity::Warn);
    assert_eq!(severity(LoggingLevel::Notice), LogSeverity::Info);
    assert_eq!(severity(LoggingLevel::Info), LogSeverity::Info);
    assert_eq!(severity(LoggingLevel::Debug), LogSeverity::Debug);
    for level in [
        LoggingLevel::Debug,
        LoggingLevel::Info,
        LoggingLevel::Notice,
        LoggingLevel::Warning,
        LoggingLevel::Error,
        LoggingLevel::Critical,
        LoggingLevel::Alert,
        LoggingLevel::Emergency,
    ] {
        for logger in [None, Some("db"), Some("a\nb")] {
            assert_eq!(
                log_message_text(level, logger, "{}").1,
                format!("MCP server log message (level: {level:?}, logger: {logger:?}, data: {{}})")
            );
        }
    }
}

#[test]
fn log_messages_show_their_data_as_json() {
    let mut data = serde_json::Map::new();
    data.insert("b".to_string(), serde_json::Value::from(1));
    data.insert("a".to_string(), serde_json::Value::from("x\n"));
    assert_eq!(
        log_message(
            LoggingLevel::Warning,
            Some("db"),
            &serde_json::Value::Object(data)
        ),
        (
            LogSeverity::Warn,
            "MCP server log message (level: Warning, logger: Some(\"db\"), data: {\"a\":\"x\\n\",\"b\":1})".to_string()
        )
    );
    assert_eq!(
        log_message(LoggingLevel::Info, None, &serde_json::Value::from("d")).1,
        "MCP server log message (level: Info, logger: None, data: \"d\")"
    );
}

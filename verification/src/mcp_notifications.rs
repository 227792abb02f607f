//! What a client makes of an MCP server's notifications: messages to put before the model, and
//! log messages.

use vstd::prelude::*;
use vstd::utf8::encode_utf8;

use crate::encoding::{optional_chars, show_optional, shown_optional};
use crate::json::{json_text, write_json};
use crate::protocol::optional_text;
use crate::text::{decimal, decimal_spec, join, join_spec, texts};

verus! {

/// Messages that wait to be put before the model, the oldest first.
#[derive(Debug)]
pub struct PendingInjections {
    messages: Vec<String>,
}

impl View for PendingInjections {
    type V = Seq<Seq<char>>;

    closed spec fn view(&self) -> Seq<Seq<char>> {
        texts(self.messages@)
    }
}

impl PendingInjections {
    /// No messages.
    pub fn new() -> (r: PendingInjections)
        ensures
            r@ == Seq::<Seq<char>>::empty(),
    {
        let r = PendingInjections { messages: Vec::new() };
        assert(r@ =~= Seq::<Seq<char>>::empty());
        r
    }

    /// Adds a message after the others.
    pub fn push(&mut self, message: String)
        ensures
            final(self)@ == old(self)@.push(message@),
    {
        self.messages.push(message);
        assert(self@ =~= old(self)@.push(message@));
    }
}

/// Takes all the messages that wait, the oldest first, and leaves none.
pub fn take_pending_injections(pending: &mut PendingInjections) -> (r: Vec<String>)
    ensures
        texts(r@) == old(pending)@,
        final(pending)@ == Seq::<Seq<char>>::empty(),
{
    let mut taken: Vec<String> = Vec::new();
    std::mem::swap(&mut taken, &mut pending.messages);
    assert(pending@ =~= Seq::<Seq<char>>::empty());
    taken
}

/// One piece of a resource's contents.
#[derive(Debug, PartialEq, Eq)]
pub enum ResourceContents {
    TextResourceContents { text: String },
    BlobResourceContents { blob: String, mime_type: Option<String> },
}

/// One piece of a resource's contents, with its text.
pub enum ContentsView {
    Text { text: Seq<char> },
    Blob { blob: Seq<char>, mime_type: Option<Seq<char>> },
}

impl View for ResourceContents {
    type V = ContentsView;

    open spec fn view(&self) -> ContentsView {
        match self {
            ResourceContents::TextResourceContents { text } => ContentsView::Text { text: text@ },
            ResourceContents::BlobResourceContents { blob, mime_type } => ContentsView::Blob {
                blob: blob@,
                mime_type: optional_text(*mime_type),
            },
        }
    }
}

/// The views of a list of contents.
pub open spec fn contents_views(contents: Seq<ResourceContents>) -> Seq<ContentsView> {
    contents.map_values(|item: ResourceContents| item@)
}

/// The name of a server that may not have told it.
pub open spec fn server_shown(server_name: Option<Seq<char>>) -> Seq<char> {
    match server_name {
        Some(name) => name,
        None => "unknown"@,
    }
}

/// The mime type of a blob that may not have one.
pub open spec fn mime_shown(mime_type: Option<Seq<char>>) -> Seq<char> {
    match mime_type {
        Some(mime) => mime,
        None => "application/octet-stream"@,
    }
}

/// An element named `resource`, with its server and uri, up to where the rest of its attributes
/// stands.
pub open spec fn resource_opening(server: Seq<char>, uri: Seq<char>) -> Seq<char> {
    "<resource server=\""@ + server + "\" uri=\""@ + uri + "\""@
}

/// The element that announces an update.
pub open spec fn update_element(server: Seq<char>, uri: Seq<char>) -> Seq<char> {
    "<resource-updated server=\""@ + server + "\" uri=\""@ + uri + "\" />\n"@
}

/// The element that shows a text of a resource.
pub open spec fn text_element(server: Seq<char>, uri: Seq<char>, text: Seq<char>) -> Seq<char> {
    resource_opening(server, uri) + ">\n"@ + text + "\n</resource>"@
}

/// The element that stands for a blob of a resource: its type and the length of its encoded form.
pub open spec fn blob_element(
    server: Seq<char>,
    uri: Seq<char>,
    blob: Seq<char>,
    mime_type: Option<Seq<char>>,
) -> Seq<char> {
    resource_opening(server, uri) + " type=\"blob\" mime-type=\""@ + mime_shown(mime_type)
        + "\" size=\""@ + decimal_spec(encode_utf8(blob).len())
        + "\">\n[Binary resource - use ReadMcpResourceTool to retrieve if needed]\n</resource>"@
}

/// The element that shows one piece of a resource's contents.
pub open spec fn contents_element(
    server: Seq<char>,
    uri: Seq<char>,
    contents: ContentsView,
) -> Seq<char> {
    match contents {
        ContentsView::Text { text } => text_element(server, uri, text),
        ContentsView::Blob { blob, mime_type } => blob_element(server, uri, blob, mime_type),
    }
}

/// The elements that show a resource's contents.
pub open spec fn contents_elements(
    server: Seq<char>,
    uri: Seq<char>,
    contents: Seq<ContentsView>,
) -> Seq<Seq<char>> {
    contents.map_values(|item: ContentsView| contents_element(server, uri, item))
}

/// The message about an updated resource: its contents, or why they could not be read.
pub open spec fn injection(
    server: Seq<char>,
    uri: Seq<char>,
    read: Result<Seq<ContentsView>, Seq<char>>,
) -> Seq<char> {
    match read {
        Ok(contents) => update_element(server, uri) + join_spec(
            contents_elements(server, uri, contents),
            "\n"@,
        ),
        Err(err) => update_element(server, uri) + text_element(
            server,
            uri,
            "[error reading resource: "@ + err + "]"@,
        ),
    }
}

/// The contents of a resource, or why they could not be read, with their texts.
pub open spec fn read_view(read: Result<Vec<ResourceContents>, String>) -> Result<
    Seq<ContentsView>,
    Seq<char>,
> {
    match read {
        Ok(contents) => Ok(contents_views(contents@)),
        Err(err) => Err(err@),
    }
}

fn write_opening(server: &str, uri: &str) -> (r: String)
    ensures
        r@ == resource_opening(server@, uri@),
{
    let mut out = "<resource server=\"".to_owned();
    out.append(server);
    out.append("\" uri=\"");
    out.append(uri);
    out.append("\"");
    out
}

fn write_text(server: &str, uri: &str, text: &str) -> (r: String)
    ensures
        r@ == text_element(server@, uri@, text@),
{
    let mut out = write_opening(server, uri);
    out.append(">\n");
    out.append(text);
    out.append("\n</resource>");
    out
}

fn write_contents(server: &str, uri: &str, contents: &ResourceContents) -> (r: String)
    ensures
        r@ == contents_element(server@, uri@, contents@),
{
    match contents {
        ResourceContents::TextResourceContents { text } => write_text(server, uri, text.as_str()),
        ResourceContents::BlobResourceContents { blob, mime_type } => {
            let mime = match mime_type {
                Some(mime) => mime.as_str(),
                None => "application/octet-stream",
            };
            let mut out = write_opening(server, uri);
            out.append(" type=\"blob\" mime-type=\"");
            out.append(mime);
            out.append("\" size=\"");
            out.append(decimal(blob.as_str().as_bytes().len() as u64).as_str());
            out.append(
                "\">\n[Binary resource - use ReadMcpResourceTool to retrieve if needed]\n</resource>",
            );
            out
        },
    }
}

/// Writes the message about an updated resource. `read` is what reading the resource gave, or why
/// it failed.
pub fn resource_injection(
    server_name: Option<&str>,
    uri: &str,
    read: Result<Vec<ResourceContents>, String>,
) -> (r: String)
    ensures
        r@ == injection(server_shown(optional_chars(server_name)), uri@, read_view(read)),
{
    let server = match server_name {
        Some(name) => name,
        None => "unknown",
    };
    let mut out = "<resource-updated server=\"".to_owned();
    out.append(server);
    out.append("\" uri=\"");
    out.append(uri);
    out.append("\" />\n");
    match read {
        Ok(contents) => {
            let ghost elements = contents_elements(server@, uri@, contents_views(contents@));
            let mut parts: Vec<String> = Vec::new();
            let mut i: usize = 0;
            while i < contents.len()
                invariant
                    i <= contents.len(),
                    parts.len() == i,
                    elements == contents_elements(server@, uri@, contents_views(contents@)),
                    forall|k: int| 0 <= k < i ==> (#[trigger] parts@[k])@ == elements[k],
                decreases contents.len() - i,
            {
                parts.push(write_contents(server, uri, &contents[i]));
                i = i + 1;
            }
            assert(texts(parts@) =~= elements);
            out.append(join(parts.as_slice(), "\n").as_str());
        },
        Err(err) => {
            let mut text = "[error reading resource: ".to_owned();
            text.append(err.as_str());
            text.append("]");
            out.append(write_text(server, uri, text.as_str()).as_str());
        },
    }
    out
}

/// How grave a server says a log message is.
#[derive(Clone, Copy, Debug, PartialEq, Eq, Structural)]
pub enum LoggingLevel {
    Debug,
    Info,
    Notice,
    Warning,
    Error,
    Critical,
    Alert,
    Emergency,
}

/// How grave a log message is to the client.
#[derive(Clone, Copy, Debug, PartialEq, Eq, Structural)]
pub enum LogSeverity {
    Debug,
    Info,
    Warn,
    Error,
}

/// The name of a level.
pub open spec fn level_name(level: LoggingLevel) -> Seq<char> {
    match level {
        LoggingLevel::Debug => "Debug"@,
        LoggingLevel::Info => "Info"@,
        LoggingLevel::Notice => "Notice"@,
        LoggingLevel::Warning => "Warning"@,
        LoggingLevel::Error => "Error"@,
        LoggingLevel::Critical => "Critical"@,
        LoggingLevel::Alert => "Alert"@,
        LoggingLevel::Emergency => "Emergency"@,
    }
}

/// How grave a message of this level is to the client.
pub open spec fn severity_of(level: LoggingLevel) -> LogSeverity {
    match level {
        LoggingLevel::Emergency
        | LoggingLevel::Alert
        | LoggingLevel::Critical
        | LoggingLevel::Error => LogSeverity::Error,
        LoggingLevel::Warning => LogSeverity::Warn,
        LoggingLevel::Notice | LoggingLevel::Info => LogSeverity::Info,
        LoggingLevel::Debug => LogSeverity::Debug,
    }
}

/// The client's message about a server's log message.
pub open spec fn log_text(
    level: LoggingLevel,
    logger: Option<Seq<char>>,
    data: Seq<char>,
) -> Seq<char> {
    "MCP server log message (level: "@ + level_name(level) + ", logger: "@ + shown_optional(logger)
        + ", data: "@ + data + ")"@
}

/// What to log for a server's log message: how grave it is, and its text.
pub fn log_message(level: LoggingLevel, logger: Option<&str>, data: &serde_json::Value) -> (r: (
    LogSeverity,
    String,
))
    ensures
        r.0 == severity_of(level),
        r.1@ == log_text(level, optional_chars(logger), json_text(*data)),
{
    log_message_text(level, logger, write_json(data).as_str())
}

/// What to log for a server's log message, given the JSON text of its data.
pub fn log_message_text(level: LoggingLevel, logger: Option<&str>, data: &str) -> (r: (
    LogSeverity,
    String,
))
    ensures
        r.0 == severity_of(level),
        r.1@ == log_text(level, optional_chars(logger), data@),
{
    let severity = match level {
        LoggingLevel::Emergency
        | LoggingLevel::Alert
        | LoggingLevel::Critical
        | LoggingLevel::Error => LogSeverity::Error,
        LoggingLevel::Warning => LogSeverity::Warn,
        LoggingLevel::Notice | LoggingLevel::Info => LogSeverity::Info,
        LoggingLevel::Debug => LogSeverity::Debug,
    };
    let name = match level {
        LoggingLevel::Debug => "Debug",
        LoggingLevel::Info => "Info",
        LoggingLevel::Notice => "Notice",
        LoggingLevel::Warning => "Warning",
        LoggingLevel::Error => "Error",
        LoggingLevel::Critical => "Critical",
        LoggingLevel::Alert => "Alert",
        LoggingLevel::Emergency => "Emergency",
    };
    let mut out = "MCP server log message (level: ".to_owned();
    out.append(name);
    out.append(", logger: ");
    out.append(show_optional(logger).as_str());
    out.append(", data: ");
    out.append(data);
    out.append(")");
    (severity, out)
}

/// The message about an updated resource announces the update and then shows each piece of its
/// contents in turn, a line apart: a text as it is, a blob by its type and length.
pub proof fn law_an_injection_shows_each_piece(
    server: Seq<char>,
    uri: Seq<char>,
    contents: Seq<ContentsView>,
    elements: Seq<Seq<char>>,
)
    requires
        elements.len() == contents.len(),
        forall|i: int|
            0 <= i < contents.len() ==> #[trigger] elements[i] == (match contents[i] {
                ContentsView::Text { text } => "<resource server=\""@ + server + "\" uri=\""@ + uri
                    + "\""@ + ">\n"@ + text + "\n</resource>"@,
                ContentsView::Blob { blob, mime_type } => "<resource server=\""@ + server
                    + "\" uri=\""@ + uri + "\""@ + " type=\"blob\" mime-type=\""@ + (
                match mime_type {
                    Some(mime) => mime,
                    None => "application/octet-stream"@,
                }) + "\" size=\""@ + decimal_spec(encode_utf8(blob).len())
                    + "\">\n[Binary resource - use ReadMcpResourceTool to retrieve if needed]\n</resource>"@,
            }),
    ensures
        injection(server, uri, Ok(contents)) == "<resource-updated server=\""@ + server
            + "\" uri=\""@ + uri + "\" />\n"@ + join_spec(elements, "\n"@),
{
    assert(contents_elements(server, uri, contents) =~= elements);
}

/// The message about a resource that could not be read announces the update and says why.
pub proof fn law_an_injection_says_why_a_read_failed(
    server: Seq<char>,
    uri: Seq<char>,
    err: Seq<char>,
)
    ensures
        injection(server, uri, Err(err)) == ("<resource-updated server=\""@ + server + "\" uri=\""@
            + uri + "\" />\n"@) + ("<resource server=\""@ + server + "\" uri=\""@ + uri + "\""@
            + ">\n"@ + ("[error reading resource: "@ + err + "]"@) + "\n</resource>"@),
{
}

/// A server is shown by the name it told, and as `unknown` where it told none. What was read is
/// shown piece by piece, in order, and a failure by its reason.
pub proof fn law_what_was_read_is_shown_as_it_is(
    name: Seq<char>,
    contents: Vec<ResourceContents>,
    i: int,
    err: String,
)
    requires
        0 <= i < contents.len(),
    ensures
        server_shown(Some(name)) == name,
        server_shown(None) == "unknown"@,
        read_view(Ok(contents)) matches Ok(shown) && shown.len() == contents.len()
            && match contents[i] {
            ResourceContents::TextResourceContents { text } => shown[i] == (ContentsView::Text {
                text: text@,
            }),
            ResourceContents::BlobResourceContents { blob, mime_type: Some(mime) } => shown[i] == (
            ContentsView::Blob { blob: blob@, mime_type: Some(mime@) }),
            ResourceContents::BlobResourceContents { blob, mime_type: None } => shown[i] == (
            ContentsView::Blob { blob: blob@, mime_type: None }),
        },
        read_view(Err(err)) == Err::<Seq<ContentsView>, Seq<char>>(err@),
{
}

/// A log message is logged with its level, its logger and its data. Errors and all that is graver
/// are errors to the client, warnings are warnings, notices and infos are infos, and debug
/// messages are debug messages.
pub proof fn law_log_messages_keep_their_gravity(
    level: LoggingLevel,
    logger: Option<Seq<char>>,
    data: Seq<char>,
    name: Seq<char>,
)
    requires
        level == LoggingLevel::Debug ==> name == "Debug"@,
        level == LoggingLevel::Info ==> name == "Info"@,
        level == LoggingLevel::Notice ==> name == "Notice"@,
        level == LoggingLevel::Warning ==> name == "Warning"@,
        level == LoggingLevel::Error ==> name == "Error"@,
        level == LoggingLevel::Critical ==> name == "Critical"@,
        level == LoggingLevel::Alert ==> name == "Alert"@,
        level == LoggingLevel::Emergency ==> name == "Emergency"@,
    ensures
        log_text(level, logger, data) == "MCP server log message (level: "@ + name + ", logger: "@
            + shown_optional(logger) + ", data: "@ + data + ")"@,
        severity_of(level) == LogSeverity::Debug <==> level == LoggingLevel::Debug,
        severity_of(level) == LogSeverity::Info <==> level == LoggingLevel::Info || level
            == LoggingLevel::Notice,
        severity_of(level) == LogSeverity::Warn <==> level == LoggingLevel::Warning,
        severity_of(level) == LogSeverity::Error <==> level == LoggingLevel::Error || level
            == LoggingLevel::Critical || level == LoggingLevel::Alert || level
            == LoggingLevel::Emergency,
{
}

} // verus!

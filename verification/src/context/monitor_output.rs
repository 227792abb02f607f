//! Output of a monitor command that is still running.

use vstd::prelude::*;

use crate::context::ContextualUserFragment;
use crate::protocol::ContentItemKind;
use crate::text::{join, join_spec, signed_decimal, signed_decimal_spec, texts};

verus! {

/// Model-visible output emitted by a running monitor command.
pub struct MonitorOutput {
    body: String,
}

impl View for MonitorOutput {
    type V = Seq<char>;

    closed spec fn view(&self) -> Seq<char> {
        self.body@
    }
}

/// The text about a monitor command's output.
pub open spec fn monitor_text(
    call_id: Seq<char>,
    process_id: int,
    command: Seq<Seq<char>>,
    output: Seq<char>,
) -> Seq<char> {
    "<monitor-command-output call-id=\""@ + call_id + "\" process-id=\""@ + signed_decimal_spec(
        process_id,
    ) + "\">\n<command>"@ + join_spec(command, " "@) + "</command>\n<output>\n"@ + output
        + "\n</output>\n</monitor-command-output>"@
}

impl MonitorOutput {
    /// The output of the process that runs `command`.
    pub fn new(call_id: &str, process_id: i32, command: &[String], output: &str) -> (r: Self)
        ensures
            r@ == monitor_text(call_id@, process_id as int, texts(command@), output@),
    {
        let mut body = "<monitor-command-output call-id=\"".to_owned();
        body.append(call_id);
        body.append("\" process-id=\"");
        body.append(signed_decimal(process_id).as_str());
        body.append("\">\n<command>");
        body.append(join(command, " ").as_str());
        body.append("</command>\n<output>\n");
        body.append(output);
        body.append("\n</output>\n</monitor-command-output>");
        MonitorOutput { body }
    }
}

impl ContextualUserFragment for MonitorOutput {
    fn role(&self) -> (r: &'static str)
        ensures
            r@ == "user"@,
    {
        "user"
    }

    fn content_kind(&self) -> (r: ContentItemKind)
        ensures
            r@ == "exec.monitor_output"@,
    {
        ContentItemKind("exec.monitor_output".to_owned())
    }

    fn markers(&self) -> (r: (&'static str, &'static str))
        ensures
            r.0@ == ""@,
            r.1@ == ""@,
    {
        Self::type_markers()
    }

    fn body(&self) -> (r: String)
        ensures
            r@ == self@,
    {
        self.body.clone()
    }

    fn type_markers() -> (r: (&'static str, &'static str))
        ensures
            r.0@ == ""@,
            r.1@ == ""@,
    {
        ("", "")
    }
}

/// The text about a monitor command's output tells the call and the process, then the command, then
/// the output, whole, between two lines of the output element.
pub proof fn law_monitor_output_is_told_whole(
    call_id: Seq<char>,
    process_id: int,
    command: Seq<Seq<char>>,
    output: Seq<char>,
)
    ensures
        ({
            let text = monitor_text(call_id, process_id, command, output);
            let opening = "<monitor-command-output call-id=\""@ + call_id + "\" process-id=\""@
                + signed_decimal_spec(process_id) + "\">\n<command>"@;
            let closing = "</command>\n<output>\n"@ + output
                + "\n</output>\n</monitor-command-output>"@;
            text == opening + join_spec(command, " "@) + closing
        }),
{
    let opening = "<monitor-command-output call-id=\""@ + call_id + "\" process-id=\""@
        + signed_decimal_spec(process_id) + "\">\n<command>"@;
    let closing = "</command>\n<output>\n"@ + output + "\n</output>\n</monitor-command-output>"@;
    assert(monitor_text(call_id, process_id, command, output) =~= opening + join_spec(
        command,
        " "@,
    ) + closing);
}

} // verus!

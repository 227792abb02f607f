//! The end of a process that had been left running.

use vstd::prelude::*;

use crate::context::{truncated_as, ContextualUserFragment, TruncationPolicy};
use crate::protocol::ContentItemKind;
use crate::text::{join, join_spec, occurs_at, signed_decimal, signed_decimal_spec, texts};

verus! {

/// About this many tokens of a process's output are shown.
pub const EXEC_OUTPUT_TOKENS: usize = 8_000;

/// What a process was run for.
#[derive(Clone, Copy, Debug, PartialEq, Eq, Structural)]
pub enum ExecKind {
    Command,
    Monitor,
}

impl ExecKind {
    /// The name of the element about the end of such a process.
    pub open spec fn tag_spec(self) -> Seq<char> {
        match self {
            ExecKind::Command => "exec-command-completed"@,
            ExecKind::Monitor => "monitor-command-ended"@,
        }
    }

    /// The name of the element about the end of such a process.
    pub fn tag(self) -> (r: &'static str)
        ensures
            r@ == self.tag_spec(),
    {
        match self {
            ExecKind::Command => "exec-command-completed",
            ExecKind::Monitor => "monitor-command-ended",
        }
    }
}

/// Model-visible completion of a unified exec process that previously yielded.
pub struct ExecCompletion {
    body: String,
}

impl View for ExecCompletion {
    type V = Seq<char>;

    closed spec fn view(&self) -> Seq<char> {
        self.body@
    }
}

/// The text about the end of a process, with its output as it is shown.
pub open spec fn completion_text(
    kind: ExecKind,
    call_id: Seq<char>,
    process_id: int,
    command: Seq<Seq<char>>,
    exit_code: int,
    shown_output: Seq<char>,
) -> Seq<char> {
    "<"@ + kind.tag_spec() + " call-id=\""@ + call_id + "\" process-id=\""@ + signed_decimal_spec(
        process_id,
    ) + "\" exit-code=\""@ + signed_decimal_spec(exit_code) + "\">\n<command>"@ + join_spec(
        command,
        " "@,
    ) + "</command>\n<output>\n"@ + shown_output + "\n</output>\n</"@ + kind.tag_spec() + ">"@
}

impl ExecCompletion {
    /// The end of the process that ran `command`. `truncate_text` cuts a text by a policy.
    pub fn new<F: Fn(&str, TruncationPolicy) -> String>(
        kind: ExecKind,
        call_id: &str,
        process_id: i32,
        command: &[String],
        exit_code: i32,
        output: &str,
        truncate_text: F,
    ) -> (r: Self)
        requires
            forall|t: &str|
                call_requires(truncate_text, (t, TruncationPolicy::Tokens(EXEC_OUTPUT_TOKENS))),
        ensures
            exists|shown: Seq<char>|
                #[trigger] truncated_as(
                    truncate_text,
                    output@,
                    TruncationPolicy::Tokens(EXEC_OUTPUT_TOKENS),
                    shown,
                ) && r@ == completion_text(
                    kind,
                    call_id@,
                    process_id as int,
                    texts(command@),
                    exit_code as int,
                    shown,
                ),
    {
        let shown = truncate_text(output, TruncationPolicy::Tokens(EXEC_OUTPUT_TOKENS));
        assert(truncated_as(
            truncate_text,
            output@,
            TruncationPolicy::Tokens(EXEC_OUTPUT_TOKENS),
            shown@,
        ));
        Self::with_shown_output(kind, call_id, process_id, command, exit_code, shown.as_str())
    }

    /// The end of the process that ran `command`, with its output as it is shown.
    pub fn with_shown_output(
        kind: ExecKind,
        call_id: &str,
        process_id: i32,
        command: &[String],
        exit_code: i32,
        shown_output: &str,
    ) -> (r: Self)
        ensures
            r@ == completion_text(
                kind,
                call_id@,
                process_id as int,
                texts(command@),
                exit_code as int,
                shown_output@,
            ),
    {
        let tag = kind.tag();
        let mut body = "<".to_owned();
        body.append(tag);
        body.append(" call-id=\"");
        body.append(call_id);
        body.append("\" process-id=\"");
        body.append(signed_decimal(process_id).as_str());
        body.append("\" exit-code=\"");
        body.append(signed_decimal(exit_code).as_str());
        body.append("\">\n<command>");
        body.append(join(command, " ").as_str());
        body.append("</command>\n<output>\n");
        body.append(shown_output);
        body.append("\n</output>\n</");
        body.append(tag);
        body.append(">");
        ExecCompletion { body }
    }
}

impl ContextualUserFragment for ExecCompletion {
    fn role(&self) -> (r: &'static str)
        ensures
            r@ == "user"@,
    {
        "user"
    }

    fn content_kind(&self) -> (r: ContentItemKind)
        ensures
            r@ == "exec.completion"@,
    {
        ContentItemKind("exec.completion".to_owned())
    }

    fn markers(&self) -> (r: (&'static str, &'static str))
        ensures
            r.0@ == ""@,
            r.1@ == ""@,
    {
        Self::type_markers()
    }

    fn body(&self) -> (r: String)
        ensures
            r@ == self@,
    {
        self.body.clone()
    }

    fn type_markers() -> (r: (&'static str, &'static str))
        ensures
            r.0@ == ""@,
            r.1@ == ""@,
    {
        ("", "")
    }
}

/// The text about the end of a process is one element: it opens and closes with the tag of what
/// the process was run for.
pub proof fn law_completion_is_one_element(
    kind: ExecKind,
    call_id: Seq<char>,
    process_id: int,
    command: Seq<Seq<char>>,
    exit_code: int,
    shown_output: Seq<char>,
)
    ensures
        ({
            let text = completion_text(
                kind,
                call_id,
                process_id,
                command,
                exit_code,
                shown_output,
            );
            let opening = "<"@ + kind.tag_spec() + " call-id=\""@;
            let closing = "\n</output>\n</"@ + kind.tag_spec() + ">"@;
            occurs_at(text, opening, 0) && occurs_at(text, closing, text.len() - closing.len())
        }),
{
    let text = completion_text(kind, call_id, process_id, command, exit_code, shown_output);
    let opening = "<"@ + kind.tag_spec() + " call-id=\""@;
    let closing = "\n</output>\n</"@ + kind.tag_spec() + ">"@;
    assert(text.subrange(0, opening.len() as int) =~= opening);
    assert(text.subrange(text.len() - closing.len(), text.len() as int) =~= closing);
}

/// The text about the end of a process, of either kind, is its opening element with the call, the
/// process and the exit code, then its command, then the shown output between two lines of the
/// output element, then the closing element.
pub proof fn law_completion_tells_the_output(
    kind: ExecKind,
    call_id: Seq<char>,
    process_id: int,
    command: Seq<Seq<char>>,
    exit_code: int,
    shown_output: Seq<char>,
    tag: Seq<char>,
)
    requires
        kind == ExecKind::Command ==> tag == "exec-command-completed"@,
        kind == ExecKind::Monitor ==> tag == "monitor-command-ended"@,
    ensures
        ({
            let text = completion_text(
                kind,
                call_id,
                process_id,
                command,
                exit_code,
                shown_output,
            );
            let opening = "<"@ + tag + " call-id=\""@ + call_id + "\" process-id=\""@
                + signed_decimal_spec(process_id) + "\" exit-code=\""@ + signed_decimal_spec(
                exit_code,
            ) + "\">\n<command>"@ + join_spec(command, " "@);
            let closing = "</command>\n<output>\n"@ + shown_output + "\n</output>\n</"@ + tag
                + ">"@;
            text == opening + closing
        }),
{
    let opening = "<"@ + tag + " call-id=\""@ + call_id + "\" process-id=\""@ + signed_decimal_spec(
        process_id,
    ) + "\" exit-code=\""@ + signed_decimal_spec(exit_code) + "\">\n<command>"@ + join_spec(
        command,
        " "@,
    );
    let closing = "</command>\n<output>\n"@ + shown_output + "\n</output>\n</"@ + tag + ">"@;
    assert(completion_text(kind, call_id, process_id, command, exit_code, shown_output) =~= opening
        + closing);
}

/// The texts of the two kinds differ in the tag alone: what stands between the tags is the same.
pub proof fn law_kinds_differ_in_the_tag_alone(
    call_id: Seq<char>,
    process_id: int,
    command: Seq<Seq<char>>,
    exit_code: int,
    shown_output: Seq<char>,
)
    ensures
        exists|middle: Seq<char>|
            {
                &&& completion_text(
                    ExecKind::Command,
                    call_id,
                    process_id,
                    command,
                    exit_code,
                    shown_output,
                ) == #[trigger] ("<exec-command-completed"@ + middle)
                    + "exec-command-completed>"@
                &&& completion_text(
                    ExecKind::Monitor,
                    call_id,
                    process_id,
                    command,
                    exit_code,
                    shown_output,
                ) == ("<monitor-command-ended"@ + middle) + "monitor-command-ended>"@
            },
{
    let middle = " call-id=\""@ + call_id + "\" process-id=\""@ + signed_decimal_spec(process_id)
        + "\" exit-code=\""@ + signed_decimal_spec(exit_code) + "\">\n<command>"@ + join_spec(
        command,
        " "@,
    ) + "</command>\n<output>\n"@ + shown_output + "\n</output>\n</"@;
    reveal_strlit("<");
    reveal_strlit(">");
    reveal_strlit("exec-command-completed");
    reveal_strlit("<exec-command-completed");
    reveal_strlit("exec-command-completed>");
    reveal_strlit("monitor-command-ended");
    reveal_strlit("<monitor-command-ended");
    reveal_strlit("monitor-command-ended>");
    assert("<"@ + "exec-command-completed"@ =~= "<exec-command-completed"@);
    assert("exec-command-completed"@ + ">"@ =~= "exec-command-completed>"@);
    assert("<"@ + "monitor-command-ended"@ =~= "<monitor-command-ended"@);
    assert("monitor-command-ended"@ + ">"@ =~= "monitor-command-ended>"@);
    assert(completion_text(
        ExecKind::Command,
        call_id,
        process_id,
        command,
        exit_code,
        shown_output,
    ) =~= ("<"@ + "exec-command-completed"@ + middle) + ("exec-command-completed"@ + ">"@));
    assert(completion_text(
        ExecKind::Monitor,
        call_id,
        process_id,
        command,
        exit_code,
        shown_output,
    ) =~= ("<"@ + "monitor-command-ended"@ + middle) + ("monitor-command-ended"@ + ">"@));
}

} // verus!

//! Fragments of context that are put before the model in the user's place.

use vstd::prelude::*;

use crate::protocol::ContentItemKind;

pub mod exec_completion;
pub mod monitor_output;
pub mod resource_update;

verus! {

/// A fragment of context.
pub trait ContextualUserFragment {
    /// The role of the message that holds the fragment.
    fn role(&self) -> &'static str;

    /// The kind of content that the fragment is.
    fn content_kind(&self) -> ContentItemKind;

    /// What stands before and after the fragment's body.
    fn markers(&self) -> (&'static str, &'static str);

    /// The fragment's text.
    fn body(&self) -> String;

    /// What stands before and after the body of any fragment of the type.
    fn type_markers() -> (&'static str, &'static str);
}

/// How much of a text to keep.
#[derive(Clone, Copy, Debug, PartialEq, Eq, Structural)]
pub enum TruncationPolicy {
    /// About this many bytes.
    Bytes(usize),
    /// About this many tokens.
    Tokens(usize),
}

/// Whether `truncate` may make `shown` of a text with these characters.
pub open spec fn truncated_as<F: Fn(&str, TruncationPolicy) -> String>(
    truncate: F,
    text: Seq<char>,
    policy: TruncationPolicy,
    shown: Seq<char>,
) -> bool {
    exists|t: &str, s: String|
        t@ == text && s@ == shown && #[trigger] call_ensures(truncate, (t, policy), s)
}

/// Where a truncation makes one text of each text and policy, what is shown of a text is what it
/// makes of that text by that policy.
pub proof fn law_what_is_shown_is_the_truncated_text<F: Fn(&str, TruncationPolicy) -> String>(
    truncate: F,
    made: spec_fn(Seq<char>, TruncationPolicy) -> Seq<char>,
    text: Seq<char>,
    policy: TruncationPolicy,
    shown: Seq<char>,
)
    requires
        forall|t: &str, p: TruncationPolicy, s: String| #[trigger]
            call_ensures(truncate, (t, p), s) ==> s@ == made(t@, p),
        truncated_as(truncate, text, policy, shown),
    ensures
        shown == made(text, policy),
        exec_completion::EXEC_OUTPUT_TOKENS == 8_000,
        resource_update::RESOURCE_UPDATE_TOKENS == 10_000,
{
}

} // verus!

//! Content of a resource that was updated.

use vstd::prelude::*;

use crate::context::{truncated_as, ContextualUserFragment, TruncationPolicy};
use crate::protocol::ContentItemKind;

verus! {

/// About this many tokens of an updated resource are shown.
pub const RESOURCE_UPDATE_TOKENS: usize = 10_000;

/// Model-visible content published by an MCP resource update notification.
pub struct ResourceUpdate {
    body: String,
}

impl View for ResourceUpdate {
    type V = Seq<char>;

    closed spec fn view(&self) -> Seq<char> {
        self.body@
    }
}

impl ResourceUpdate {
    /// The content of an updated resource. `truncate_text` cuts a text by a policy.
    pub fn new<F: Fn(&str, TruncationPolicy) -> String>(body: String, truncate_text: F) -> (r: Self)
        requires
            forall|t: &str|
                call_requires(truncate_text, (t, TruncationPolicy::Tokens(RESOURCE_UPDATE_TOKENS))),
        ensures
            truncated_as(
                truncate_text,
                body@,
                TruncationPolicy::Tokens(RESOURCE_UPDATE_TOKENS),
                r@,
            ),
    {
        ResourceUpdate {
            body: truncate_text(body.as_str(), TruncationPolicy::Tokens(RESOURCE_UPDATE_TOKENS)),
        }
    }
}

impl ContextualUserFragment for ResourceUpdate {
    fn role(&self) -> (r: &'static str)
        ensures
            r@ == "user"@,
    {
        "user"
    }

    fn content_kind(&self) -> (r: ContentItemKind)
        ensures
            r@ == "mcp.resource_update"@,
    {
        ContentItemKind("mcp.resource_update".to_owned())
    }

    fn markers(&self) -> (r: (&'static str, &'static str))
        ensures
            r.0@ == ""@,
            r.1@ == ""@,
    {
        Self::type_markers()
    }

    fn body(&self) -> (r: String)
        ensures
            r@ == self@,
    {
        self.body.clone()
    }

    fn type_markers() -> (r: (&'static str, &'static str))
        ensures
            r.0@ == ""@,
            r.1@ == ""@,
    {
        ("", "")
    }
}

} // verus!

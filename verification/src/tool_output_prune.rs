//! Clearing old tool outputs out of a conversation.
//!
//! Going back from the newest item, the tool outputs that stand before the last two user inputs
//! are counted up. Those within the first [`PRUNE_PROTECT_TOKENS`] tokens stay. The older ones are
//! replaced by a placeholder, but only where that frees more than [`PRUNE_MINIMUM_TOKENS`] tokens.

use vstd::prelude::*;

use crate::protocol::{
    FunctionCallOutputBody, FunctionCallOutputPayload, ItemView, OutputBodyView, OutputView,
    ResponseItem,
};
use crate::text::{same_text, strip_prefix};

verus! {

/// Nothing is cleared unless that frees more tokens than this.
pub const PRUNE_MINIMUM_TOKENS: usize = 20_000;

/// The newest tool outputs, up to this many tokens, stay.
pub const PRUNE_PROTECT_TOKENS: usize = 40_000;

/// What stands in a cleared output.
pub const PRUNE_PLACEHOLDER: &'static str = "[Old tool result content cleared]";

/// Whether the message with this role and metadata is something the user put in: its role is
/// `user`, and where the kinds of its content were noted, one of them is a `user.` kind.
pub open spec fn is_user_message(role: Seq<char>, metadata: Option<Option<Seq<Seq<char>>>>) -> bool {
    &&& role == "user"@
    &&& match metadata {
        Some(Some(kinds)) => has_user_kind(kinds),
        _ => true,
    }
}

/// Whether one of these content kinds starts with `user.`.
pub open spec fn has_user_kind(kinds: Seq<Seq<char>>) -> bool {
    exists|k: int| 0 <= k < kinds.len() && is_user_kind(#[trigger] kinds[k])
}

/// Whether a content kind starts with `user.`.
pub open spec fn is_user_kind(kind: Seq<char>) -> bool {
    crate::text::occurs_at(kind, "user."@, 0)
}

/// Whether `item` is something the user put in.
pub open spec fn is_user_input_spec(item: ItemView) -> bool {
    match item {
        ItemView::Message { role, metadata, .. } => is_user_message(role, metadata),
        _ => false,
    }
}

/// How many of `items` the user put in.
pub open spec fn user_turns(items: Seq<ItemView>) -> nat
    decreases items.len(),
{
    if items.len() == 0 {
        0
    } else {
        (if is_user_input_spec(items.first()) {
            1nat
        } else {
            0nat
        }) + user_turns(items.skip(1))
    }
}

/// The name of the tool that the last call with this id, anywhere in `items`, went to.
pub open spec fn called_tool(items: Seq<ItemView>, id: Seq<char>) -> Option<Seq<char>>
    decreases items.len(),
{
    if items.len() == 0 {
        None
    } else {
        match items.last() {
            ItemView::FunctionCall { call_id, name, .. } if call_id == id => Some(name),
            ItemView::CustomToolCall { call_id, name, .. } if call_id == id => Some(name),
            _ => called_tool(items.drop_last(), id),
        }
    }
}

/// Whether outputs of this tool are kept: they are those of `apply_patch`.
pub open spec fn is_protected_tool(name: Option<Seq<char>>) -> bool {
    name == Some("apply_patch"@)
}

/// The tool output of an item, if it is one.
pub open spec fn output_of(item: ItemView) -> Option<OutputView> {
    match item {
        ItemView::FunctionCallOutput { output, .. } => Some(output),
        ItemView::CustomToolCallOutput { output, .. } => Some(output),
        _ => None,
    }
}

/// Whether item `i` is a tool output that may be cleared: at least two user inputs follow it, it
/// did not fail, and it is known to answer a call that did not go to a protected tool.
pub open spec fn may_clear(items: Seq<ItemView>, i: int) -> bool {
    &&& user_turns(items.skip(i + 1)) >= 2
    &&& match items[i] {
        ItemView::FunctionCallOutput { call_id: Some(id), output, .. } => {
            &&& output.success != Some(false)
            &&& !is_protected_tool(called_tool(items, id))
        },
        ItemView::CustomToolCallOutput { call_id, .. } => !is_protected_tool(
            called_tool(items, call_id),
        ),
        _ => false,
    }
}

/// The tokens of the outputs from item `i` on that may be cleared. `tokens[k]` is the size of
/// the output in item `k`.
pub open spec fn tokens_from(items: Seq<ItemView>, tokens: Seq<usize>, i: int) -> nat
    decreases items.len() - i,
{
    if i >= items.len() {
        0
    } else {
        (if may_clear(items, i) {
            tokens[i] as nat
        } else {
            0nat
        }) + tokens_from(items, tokens, i + 1)
    }
}

/// Whether item `i` is an output that lies past the newest ones that stay.
pub open spec fn past_window(items: Seq<ItemView>, tokens: Seq<usize>, i: int) -> bool {
    may_clear(items, i) && tokens_from(items, tokens, i) > PRUNE_PROTECT_TOKENS
}

/// The tokens of the outputs from item `i` on that lie past the newest ones that stay.
pub open spec fn freed_from(items: Seq<ItemView>, tokens: Seq<usize>, i: int) -> nat
    decreases items.len() - i,
{
    if i >= items.len() {
        0
    } else {
        (if past_window(items, tokens, i) {
            tokens[i] as nat
        } else {
            0nat
        }) + freed_from(items, tokens, i + 1)
    }
}

/// Whether the output in item `i` is cleared.
pub open spec fn is_cleared(items: Seq<ItemView>, tokens: Seq<usize>, i: int) -> bool {
    past_window(items, tokens, i) && freed_from(items, tokens, 0) > PRUNE_MINIMUM_TOKENS
}

/// An output with its body replaced by the placeholder.
pub open spec fn cleared_output(output: OutputView) -> OutputView {
    OutputView { body: OutputBodyView::Text(PRUNE_PLACEHOLDER@), success: output.success }
}

/// An item with its output, if it is a tool output, replaced by the placeholder.
pub open spec fn cleared(item: ItemView) -> ItemView {
    match item {
        ItemView::FunctionCallOutput { id, call_id, name, namespace, output, metadata } => {
            ItemView::FunctionCallOutput {
                id,
                call_id,
                name,
                namespace,
                output: cleared_output(output),
                metadata,
            }
        },
        ItemView::CustomToolCallOutput { id, call_id, output, rest } => {
            ItemView::CustomToolCallOutput {
                id,
                call_id,
                output: cleared_output(output),
                rest,
            }
        },
        _ => item,
    }
}

/// The conversation with its old tool outputs cleared.
pub open spec fn pruned(items: Seq<ItemView>, tokens: Seq<usize>) -> Seq<ItemView> {
    Seq::new(
        items.len(),
        |i: int|
            if is_cleared(items, tokens, i) {
                cleared(items[i])
            } else {
                items[i]
            },
    )
}

/// Whether `item` is something the user put in.
pub fn is_user_input(item: &ResponseItem) -> (r: bool)
    ensures
        r == is_user_input_spec(item@),
{
    match item {
        ResponseItem::Message { role, internal_chat_message_metadata_passthrough, .. } => {
            if !same_text(role.as_str(), "user") {
                return false;
            }
            match internal_chat_message_metadata_passthrough {
                None => true,
                Some(metadata) => match &metadata.content_item_kinds {
                    None => true,
                    Some(kinds) => {
                        let ghost names = crate::protocol::kind_names(kinds@);
                        assert(metadata@ == Some(names));
                        let mut i: usize = 0;
                        while i < kinds.len()
                            invariant
                                i <= kinds.len(),
                                names == crate::protocol::kind_names(kinds@),
                                is_user_input_spec(item@) == has_user_kind(names),
                                forall|k: int| 0 <= k < i ==> !is_user_kind(#[trigger] names[k]),
                            decreases kinds.len() - i,
                        {
                            assert(names[i as int] == kinds@[i as int].0@);
                            if strip_prefix(kinds[i].0.as_str(), "user.").is_some() {
                                assert(is_user_kind(names[i as int]));
                                return true;
                            }
                            i = i + 1;
                        }
                        false
                    },
                },
            }
        },
        _ => false,
    }
}

/// Whether outputs of the tool with this name are kept.
///
/// Those of `apply_patch` often hold the only lasting trace of what was changed.
pub fn should_protect_tool(name: Option<&str>) -> (r: bool)
    ensures
        r == is_protected_tool(
            match name {
                Some(n) => Some(n@),
                None => None,
            },
        ),
{
    match name {
        Some(n) => same_text(n, "apply_patch"),
        None => false,
    }
}

/// The name of the tool that the last call with this id went to.
fn called_tool_name<'a>(items: &'a [ResponseItem], id: &str) -> (r: Option<&'a str>)
    ensures
        called_tool(crate::protocol::item_views(items@), id@) == (match r {
            Some(n) => Some(n@),
            None => None,
        }),
{
    let ghost views = crate::protocol::item_views(items@);
    let mut i: usize = items.len();
    assert(views.take(i as int) == views);
    while i > 0
        invariant
            i <= items.len(),
            views == crate::protocol::item_views(items@),
            called_tool(views, id@) == called_tool(views.take(i as int), id@),
        decreases i,
    {
        i = i - 1;
        assert(views.take(i + 1).last() == items@[i as int]@);
        assert(views.take(i + 1).drop_last() == views.take(i as int));
        match &items[i] {
            ResponseItem::FunctionCall { call_id, name, .. } => {
                if same_text(call_id.as_str(), id) {
                    return Some(name.as_str());
                }
            },
            ResponseItem::CustomToolCall { call_id, name, .. } => {
                if same_text(call_id.as_str(), id) {
                    return Some(name.as_str());
                }
            },
            _ => {},
        }
    }
    None
}

/// Whether item `i` is a tool output that may be cleared, given how many user inputs follow it.
fn output_may_clear(items: &[ResponseItem], i: usize, later_user_turns: usize) -> (r: bool)
    requires
        i < items.len(),
        later_user_turns == user_turns(crate::protocol::item_views(items@).skip(i + 1)),
    ensures
        r == may_clear(crate::protocol::item_views(items@), i as int),
{
    assert(crate::protocol::item_views(items@)[i as int] == items@[i as int]@);
    match &items[i] {
        ResponseItem::FunctionCallOutput { call_id, output, .. } => {
            if later_user_turns < 2 {
                return false;
            }
            if let Some(success) = output.success {
                if !success {
                    return false;
                }
            }
            match call_id {
                Some(id) => !should_protect_tool(called_tool_name(items, id.as_str())),
                None => false,
            }
        },
        ResponseItem::CustomToolCallOutput { call_id, .. } => {
            if later_user_turns < 2 {
                return false;
            }
            !should_protect_tool(called_tool_name(items, call_id.as_str()))
        },
        _ => false,
    }
}

/// A copy of `item` in which the placeholder stands for its tool output.
fn clear_output(item: &ResponseItem) -> (r: ResponseItem)
    ensures
        r@ == cleared(item@),
{
    let mut copy = item.clone();
    match &mut copy {
        ResponseItem::FunctionCallOutput { output, .. } => {
            let success = output.success;
            *output = FunctionCallOutputPayload {
                body: FunctionCallOutputBody::Text(PRUNE_PLACEHOLDER.to_owned()),
                success,
            };
        },
        ResponseItem::CustomToolCallOutput { output, .. } => {
            let success = output.success;
            *output = FunctionCallOutputPayload {
                body: FunctionCallOutputBody::Text(PRUNE_PLACEHOLDER.to_owned()),
                success,
            };
        },
        _ => {},
    }
    copy
}

/// Clears the old tool outputs of a conversation, given the size of the output in each item.
pub fn prune_with_tokens(items: &[ResponseItem], tokens: &[usize]) -> (r: Vec<ResponseItem>)
    requires
        tokens.len() == items.len(),
    ensures
        crate::protocol::item_views(r@) == pruned(crate::protocol::item_views(items@), tokens@),
{
    let ghost views = crate::protocol::item_views(items@);
    let mut tool_output_tokens: usize = 0;
    let mut prunable_tokens: usize = 0;
    let mut user_turns_seen: usize = 0;
    // Whether each of the items walked so far, newest first, lies past the window.
    let mut past: Vec<bool> = Vec::new();
    let mut i: usize = items.len();
    assert(views.skip(i as int).len() == 0);
    while i > 0
        invariant
            i <= items.len(),
            tokens.len() == items.len(),
            views == crate::protocol::item_views(items@),
            past.len() == items.len() - i,
            user_turns_seen == user_turns(views.skip(i as int)),
            user_turns_seen <= items.len() - i,
            tool_output_tokens == (if tokens_from(views, tokens@, i as int) > usize::MAX {
                usize::MAX as nat
            } else {
                tokens_from(views, tokens@, i as int)
            }),
            prunable_tokens == (if freed_from(views, tokens@, i as int) > usize::MAX {
                usize::MAX as nat
            } else {
                freed_from(views, tokens@, i as int)
            }),
            forall|k: int|
                i <= k < items.len() ==> #[trigger] past@[items.len() - 1 - k] == past_window(
                    views,
                    tokens@,
                    k,
                ),
        decreases i,
    {
        i = i - 1;
        assert(views.skip(i as int).first() == items@[i as int]@);
        assert(views.skip(i as int).skip(1) == views.skip(i + 1));
        let counted = output_may_clear(items, i, user_turns_seen);
        if is_user_input(&items[i]) {
            user_turns_seen = user_turns_seen + 1;
        }
        if counted {
            tool_output_tokens = tool_output_tokens.saturating_add(tokens[i]);
        }
        let is_past = counted && tool_output_tokens > PRUNE_PROTECT_TOKENS;
        if is_past {
            prunable_tokens = prunable_tokens.saturating_add(tokens[i]);
        }
        past.push(is_past);
    }
    let mut out: Vec<ResponseItem> = Vec::new();
    let mut j: usize = 0;
    while j < items.len()
        invariant
            j <= items.len(),
            views == crate::protocol::item_views(items@),
            past.len() == items.len(),
            out.len() == j,
            prunable_tokens > PRUNE_MINIMUM_TOKENS <==> freed_from(views, tokens@, 0)
                > PRUNE_MINIMUM_TOKENS,
            forall|k: int|
                0 <= k < items.len() ==> #[trigger] past@[items.len() - 1 - k] == past_window(
                    views,
                    tokens@,
                    k,
                ),
            forall|k: int|
                0 <= k < j ==> (#[trigger] out@[k])@ == pruned(views, tokens@)[k],
        decreases items.len() - j,
    {
        assert(views[j as int] == items@[j as int]@);
        assert(past@[items.len() - 1 - j] == past_window(views, tokens@, j as int));
        if prunable_tokens > PRUNE_MINIMUM_TOKENS && past[items.len() - 1 - j] {
            out.push(clear_output(&items[j]));
        } else {
            out.push(items[j].clone());
        }
        j = j + 1;
    }
    assert(crate::protocol::item_views(out@) =~= pruned(views, tokens@));
    out
}

/// Whether `count` may answer `n` for a text with these characters.
pub open spec fn counted_as<F: Fn(&str) -> usize>(count: F, text: Seq<char>, n: usize) -> bool {
    exists|t: &str| t@ == text && #[trigger] call_ensures(count, (t,), n)
}

/// Whether `n` is the size that `count` gives the output of `item`: that of its text, and zero
/// where it has none.
pub open spec fn output_counted_as<F: Fn(&str) -> usize>(count: F, item: ItemView, n: usize) -> bool {
    match output_of(item) {
        Some(output) => match output.body.text() {
            Some(text) => counted_as(count, text, n),
            None => n == 0,
        },
        None => n == 0,
    }
}

/// The size of the output in each item.
fn output_tokens<F: Fn(&str) -> usize>(items: &[ResponseItem], count: &F) -> (r: Vec<usize>)
    requires
        forall|t: &str| call_requires(*count, (t,)),
    ensures
        r.len() == items.len(),
        forall|i: int|
            0 <= i < items.len() ==> output_counted_as(*count, items@[i]@, #[trigger] r@[i]),
{
    let mut out: Vec<usize> = Vec::new();
    let mut i: usize = 0;
    while i < items.len()
        invariant
            i <= items.len(),
            out.len() == i,
            forall|t: &str| call_requires(*count, (t,)),
            forall|k: int|
                0 <= k < i ==> output_counted_as(*count, items@[k]@, #[trigger] out@[k]),
        decreases items.len() - i,
    {
        let body = match &items[i] {
            ResponseItem::FunctionCallOutput { output, .. } => output.body.to_text(),
            ResponseItem::CustomToolCallOutput { output, .. } => output.body.to_text(),
            _ => None,
        };
        let n: usize = match body {
            Some(text) => count(text),
            None => 0,
        };
        out.push(n);
        i = i + 1;
    }
    out
}

/// Clears the old tool outputs of a conversation. `approx_token_count` gives the size of a text.
pub fn prune<F: Fn(&str) -> usize>(items: &[ResponseItem], approx_token_count: F) -> (r: Vec<
    ResponseItem,
>)
    requires
        forall|t: &str| call_requires(approx_token_count, (t,)),
    ensures
        exists|tokens: Seq<usize>|
            #![trigger pruned(crate::protocol::item_views(items@), tokens)]
            tokens.len() == items.len() && (forall|i: int|
                0 <= i < items.len() ==> output_counted_as(
                    approx_token_count,
                    items@[i]@,
                    #[trigger] tokens[i],
                )) && crate::protocol::item_views(r@) == pruned(
                crate::protocol::item_views(items@),
                tokens,
            ),
{
    let tokens = output_tokens(items, &approx_token_count);
    prune_with_tokens(items, tokens.as_slice())
}

/// The tokens of the outputs from item `i` on that may be cleared and stay all the same.
pub open spec fn kept_from(items: Seq<ItemView>, tokens: Seq<usize>, i: int) -> nat
    decreases items.len() - i,
{
    if i >= items.len() {
        0
    } else {
        (if may_clear(items, i) && !is_cleared(items, tokens, i) {
            tokens[i] as nat
        } else {
            0nat
        }) + kept_from(items, tokens, i + 1)
    }
}

/// Pruning keeps the number and the order of the items. It changes nothing but the body of tool
/// outputs: an output keeps whether it succeeded, and any other item stays as it is.
pub proof fn law_prune_changes_only_output_bodies(
    items: Seq<ItemView>,
    tokens: Seq<usize>,
    i: int,
)
    requires
        0 <= i < items.len(),
    ensures
        pruned(items, tokens).len() == items.len(),
        pruned(items, tokens)[i] == items[i] || pruned(items, tokens)[i] == cleared(items[i]),
        output_of(items[i]) is None ==> pruned(items, tokens)[i] == items[i],
        output_of(items[i]) matches Some(before) ==> output_of(pruned(items, tokens)[i]) matches Some(
            after,
        ) && after.success == before.success,
{
}

/// Some outputs are never touched: those with fewer than two user inputs after them, those that
/// failed, those of a call without an id and those of a protected tool.
pub proof fn law_prune_leaves_recent_failed_and_protected_outputs(
    items: Seq<ItemView>,
    tokens: Seq<usize>,
    i: int,
)
    requires
        0 <= i < items.len(),
        ({
            ||| user_turns(items.skip(i + 1)) < 2
            ||| items[i] matches ItemView::FunctionCallOutput { output, .. } && output.success
                == Some(false)
            ||| items[i] matches ItemView::FunctionCallOutput { call_id, .. } && call_id is None
            ||| items[i] matches ItemView::FunctionCallOutput { call_id: Some(id), .. }
                && is_protected_tool(called_tool(items, id))
            ||| items[i] matches ItemView::CustomToolCallOutput { call_id, .. }
                && is_protected_tool(called_tool(items, call_id))
        }),
    ensures
        pruned(items, tokens)[i] == items[i],
{
}

/// Nothing is cleared unless clearing frees more than the minimum.
pub proof fn law_prune_needs_enough_to_free(items: Seq<ItemView>, tokens: Seq<usize>)
    requires
        freed_from(items, tokens, 0) <= PRUNE_MINIMUM_TOKENS,
    ensures
        pruned(items, tokens) == items,
{
    assert(pruned(items, tokens) =~= items);
}

proof fn lemma_tokens_from_shrinks(items: Seq<ItemView>, tokens: Seq<usize>, i: int, j: int)
    requires
        0 <= i <= j <= items.len(),
    ensures
        tokens_from(items, tokens, j) <= tokens_from(items, tokens, i),
    decreases j - i,
{
    if i < j {
        lemma_tokens_from_shrinks(items, tokens, i + 1, j);
    }
}

proof fn lemma_kept_from_fits(items: Seq<ItemView>, tokens: Seq<usize>, i: int)
    requires
        0 <= i <= items.len(),
        freed_from(items, tokens, 0) > PRUNE_MINIMUM_TOKENS,
    ensures
        kept_from(items, tokens, i) <= PRUNE_PROTECT_TOKENS,
        tokens_from(items, tokens, i) <= PRUNE_PROTECT_TOKENS ==> kept_from(items, tokens, i)
            == tokens_from(items, tokens, i),
    decreases items.len() - i,
{
    if i < items.len() {
        lemma_kept_from_fits(items, tokens, i + 1);
    }
}

/// Where anything is cleared, the outputs that could have been cleared and stay fit in the
/// protected window.
pub proof fn law_prune_keeps_at_most_the_window(items: Seq<ItemView>, tokens: Seq<usize>, i: int)
    requires
        0 <= i < items.len(),
        is_cleared(items, tokens, i),
    ensures
        kept_from(items, tokens, 0) <= PRUNE_PROTECT_TOKENS,
{
    lemma_kept_from_fits(items, tokens, 0);
}

/// What stays is the newest: an output is cleared only where every older output that may be
/// cleared is cleared too.
pub proof fn law_prune_clears_the_oldest(
    items: Seq<ItemView>,
    tokens: Seq<usize>,
    older: int,
    newer: int,
)
    requires
        0 <= older <= newer < items.len(),
        is_cleared(items, tokens, newer),
        may_clear(items, older),
    ensures
        is_cleared(items, tokens, older),
{
    lemma_tokens_from_shrinks(items, tokens, older, newer);
}

proof fn lemma_pruned_user_turns(items: Seq<ItemView>, tokens: Seq<usize>, i: int)
    requires
        0 <= i <= items.len(),
    ensures
        user_turns(pruned(items, tokens).skip(i)) == user_turns(items.skip(i)),
    decreases items.len() - i,
{
    let after = pruned(items, tokens);
    if i < items.len() {
        lemma_pruned_user_turns(items, tokens, i + 1);
        assert(items.skip(i).skip(1) == items.skip(i + 1));
        assert(after.skip(i).skip(1) == after.skip(i + 1));
        assert(is_user_input_spec(after[i]) == is_user_input_spec(items[i]));
    }
}

proof fn lemma_pruned_called_tool(
    items: Seq<ItemView>,
    tokens: Seq<usize>,
    n: int,
    id: Seq<char>,
)
    requires
        0 <= n <= items.len(),
    ensures
        called_tool(pruned(items, tokens).take(n), id) == called_tool(items.take(n), id),
    decreases n,
{
    let after = pruned(items, tokens);
    if n > 0 {
        lemma_pruned_called_tool(items, tokens, n - 1, id);
        assert(items.take(n).drop_last() == items.take(n - 1));
        assert(after.take(n).drop_last() == after.take(n - 1));
        assert(after.take(n).last() == after[n - 1]);
        assert(items.take(n).last() == items[n - 1]);
    }
}

proof fn lemma_pruned_may_clear(items: Seq<ItemView>, tokens: Seq<usize>, i: int)
    requires
        0 <= i < items.len(),
    ensures
        may_clear(pruned(items, tokens), i) == may_clear(items, i),
{
    let after = pruned(items, tokens);
    lemma_pruned_user_turns(items, tokens, i + 1);
    assert(items.take(items.len() as int) == items);
    assert(after.take(items.len() as int) == after);
    match items[i] {
        ItemView::FunctionCallOutput { call_id: Some(id), .. } => {
            lemma_pruned_called_tool(items, tokens, items.len() as int, id);
        },
        ItemView::CustomToolCallOutput { call_id, .. } => {
            lemma_pruned_called_tool(items, tokens, items.len() as int, call_id);
        },
        _ => {},
    }
}

proof fn lemma_pruned_tokens_from(
    items: Seq<ItemView>,
    tokens: Seq<usize>,
    later: Seq<usize>,
    i: int,
)
    requires
        0 <= i <= items.len(),
        tokens_from(items, tokens, i) <= PRUNE_PROTECT_TOKENS,
        forall|k: int|
            0 <= k < items.len() && !is_cleared(items, tokens, k) ==> later[k] == tokens[k],
    ensures
        tokens_from(pruned(items, tokens), later, i) == tokens_from(items, tokens, i),
    decreases items.len() - i,
{
    if i < items.len() {
        lemma_pruned_tokens_from(items, tokens, later, i + 1);
        lemma_pruned_may_clear(items, tokens, i);
    }
}

/// Pruning what was pruned changes nothing more, whatever size the placeholder is given.
pub proof fn law_prune_is_idempotent(items: Seq<ItemView>, tokens: Seq<usize>, later: Seq<usize>)
    requires
        forall|k: int|
            0 <= k < items.len() && !is_cleared(items, tokens, k) ==> later[k] == tokens[k],
    ensures
        pruned(pruned(items, tokens), later) == pruned(items, tokens),
{
    let after = pruned(items, tokens);
    assert forall|i: int| 0 <= i < items.len() implies #[trigger] pruned(after, later)[i]
        == after[i] by {
        lemma_pruned_may_clear(items, tokens, i);
        if is_cleared(items, tokens, i) {
            assert(cleared(cleared(items[i])) == cleared(items[i]));
        } else if tokens_from(items, tokens, i) <= PRUNE_PROTECT_TOKENS {
            lemma_pruned_tokens_from(items, tokens, later, i);
        } else if may_clear(items, i) {
            // Nothing was cleared, so nothing changed and the sizes are the same.
            assert(after =~= items);
            lemma_same_tokens(items, tokens, later, 0);
        }
    }
    assert(pruned(after, later) =~= after);
}

proof fn lemma_same_tokens(items: Seq<ItemView>, tokens: Seq<usize>, later: Seq<usize>, i: int)
    requires
        0 <= i <= items.len(),
        forall|k: int| 0 <= k < items.len() ==> later[k] == tokens[k],
    ensures
        forall|k: int|
            i <= k <= items.len() ==> tokens_from(items, later, k) == tokens_from(items, tokens, k),
        freed_from(items, later, i) == freed_from(items, tokens, i),
    decreases items.len() - i,
{
    if i < items.len() {
        lemma_same_tokens(items, tokens, later, i + 1);
        assert(later[i] == tokens[i]);
        assert(tokens_from(items, later, i + 1) == tokens_from(items, tokens, i + 1));
        assert(tokens_from(items, later, i) == tokens_from(items, tokens, i));
    }
}

/// A message whose content is fragments of context alone, such as the end of a process or an
/// updated resource, is not something the user put in, though its role is the user's.
pub proof fn law_context_fragments_are_no_user_input(
    role: Seq<char>,
    kinds: Seq<Seq<char>>,
)
    requires
        forall|k: int|
            0 <= k < kinds.len() ==> #[trigger] kinds[k] == "exec.completion"@ || kinds[k]
                == "exec.monitor_output"@ || kinds[k] == "mcp.resource_update"@,
    ensures
        !is_user_message(role, Some(Some(kinds))),
{
    reveal_strlit("user.");
    reveal_strlit("exec.completion");
    reveal_strlit("exec.monitor_output");
    reveal_strlit("mcp.resource_update");
    assert forall|k: int| 0 <= k < kinds.len() implies !is_user_kind(#[trigger] kinds[k]) by {
        if is_user_kind(kinds[k]) {
            assert(kinds[k].subrange(0, "user."@.len() as int)[0] == 'u');
        }
    }
}

/// An item is something the user put in exactly where it is a message in the user's role whose
/// content kinds were not noted, or hold one whose first five characters are `user.`.
pub proof fn law_user_input_is_a_user_message(item: ItemView)
    ensures
        is_user_input_spec(item) <==> (item matches ItemView::Message { role, metadata, .. }
            && role == "user"@ && (metadata matches Some(Some(kinds)) ==> exists|k: int|
            0 <= k < kinds.len() && (#[trigger] kinds[k]).len() >= 5 && kinds[k].take(5)
                == "user."@)),
{
    reveal_strlit("user.");
    if let ItemView::Message { metadata: Some(Some(kinds)), .. } = item {
        assert forall|k: int| 0 <= k < kinds.len() implies is_user_kind(#[trigger] kinds[k]) == (
        kinds[k].len() >= 5 && kinds[k].take(5) == "user."@) by {
            if kinds[k].len() >= 5 {
                assert(kinds[k].take(5) =~= kinds[k].subrange(0, 5));
            }
        }
        if has_user_kind(kinds) {
            let k = choose|k: int| 0 <= k < kinds.len() && is_user_kind(#[trigger] kinds[k]);
            assert(kinds[k].len() >= 5 && kinds[k].take(5) == "user."@);
        }
    }
}

/// The user turns of a conversation are as many as its user messages: messages in the user's role
/// whose content kinds were not noted, or hold one that starts with `user.`. No other item counts.
pub proof fn law_user_turns_are_user_messages(
    items: Seq<ItemView>,
    is_user: spec_fn(ItemView) -> bool,
)
    requires
        forall|item: ItemView|
            #[trigger] is_user(item) <==> (item matches ItemView::Message { role, metadata, .. }
                && role == "user"@ && (metadata matches Some(Some(kinds)) ==> exists|k: int|
                0 <= k < kinds.len() && (#[trigger] kinds[k]).len() >= 5 && kinds[k].take(5)
                    == "user."@)),
    ensures
        user_turns(items) == items.filter(is_user).len(),
    decreases items.len(),
{
    reveal(Seq::filter);
    if items.len() > 0 {
        law_user_turns_are_user_messages(items.skip(1), is_user);
        law_user_input_is_a_user_message(items.first());
        let head = seq![items.first()];
        Seq::filter_distributes_over_add(head, items.skip(1), is_user);
        assert(head + items.skip(1) =~= items);
        assert(head.drop_last() =~= Seq::<ItemView>::empty());
        assert(head.drop_last().filter(is_user).len() == 0);
        assert(head.filter(is_user).len() == (if is_user(items.first()) {
            1nat
        } else {
            0nat
        }));
    }
}

proof fn lemma_turns_from(items: Seq<ItemView>, i: int)
    requires
        0 <= i <= items.len(),
    ensures
        user_turns(items.skip(i)) >= 1 <==> exists|a: int|
            i <= a < items.len() && is_user_input_spec(#[trigger] items[a]),
        user_turns(items.skip(i)) >= 2 <==> exists|a: int, b: int|
            i <= a < b < items.len() && is_user_input_spec(#[trigger] items[a])
                && is_user_input_spec(#[trigger] items[b]),
    decreases items.len() - i,
{
    if i < items.len() {
        lemma_turns_from(items, i + 1);
        assert(items.skip(i).skip(1) =~= items.skip(i + 1));
        assert(items.skip(i).first() == items[i]);
        let later = user_turns(items.skip(i + 1));
        if is_user_input_spec(items[i]) && later >= 1 {
            let b = choose|a: int|
                i + 1 <= a < items.len() && is_user_input_spec(#[trigger] items[a]);
            assert(is_user_input_spec(items[i]) && is_user_input_spec(items[b]));
        }
        if later >= 1 {
            let a = choose|a: int|
                i + 1 <= a < items.len() && is_user_input_spec(#[trigger] items[a]);
            assert(i <= a < items.len() && is_user_input_spec(items[a]));
        }
        if later >= 2 {
            let (a, b) = choose|a: int, b: int|
                i + 1 <= a < b < items.len() && is_user_input_spec(#[trigger] items[a])
                    && is_user_input_spec(#[trigger] items[b]);
            assert(i <= a < b < items.len() && is_user_input_spec(items[a]) && is_user_input_spec(
                items[b],
            ));
        }
        if exists|a: int, b: int|
            i <= a < b < items.len() && is_user_input_spec(#[trigger] items[a])
                && is_user_input_spec(#[trigger] items[b]) {
            let (a, b) = choose|a: int, b: int|
                i <= a < b < items.len() && is_user_input_spec(#[trigger] items[a])
                    && is_user_input_spec(#[trigger] items[b]);
            assert(i + 1 <= b < items.len() && is_user_input_spec(items[b]));
            if a > i {
                assert(i + 1 <= a < b && is_user_input_spec(items[a]));
            }
        }
    } else {
        assert(items.skip(i).len() == 0);
    }
}

/// An output stays as it is where no two user messages follow it, whatever other messages and
/// items do.
pub proof fn law_prune_leaves_the_last_two_turns(
    items: Seq<ItemView>,
    tokens: Seq<usize>,
    i: int,
    is_user: spec_fn(ItemView) -> bool,
)
    requires
        0 <= i < items.len(),
        forall|item: ItemView|
            #[trigger] is_user(item) <==> (item matches ItemView::Message { role, metadata, .. }
                && role == "user"@ && (metadata matches Some(Some(kinds)) ==> exists|k: int|
                0 <= k < kinds.len() && (#[trigger] kinds[k]).len() >= 5 && kinds[k].take(5)
                    == "user."@)),
        forall|a: int, b: int|
            i < a < b < items.len() ==> !(is_user(#[trigger] items[a]) && is_user(
                #[trigger] items[b],
            )),
    ensures
        pruned(items, tokens)[i] == items[i],
{
    lemma_turns_from(items, i + 1);
    if user_turns(items.skip(i + 1)) >= 2 {
        let (a, b) = choose|a: int, b: int|
            i + 1 <= a < b < items.len() && is_user_input_spec(#[trigger] items[a])
                && is_user_input_spec(#[trigger] items[b]);
        law_user_input_is_a_user_message(items[a]);
        law_user_input_is_a_user_message(items[b]);
        assert(is_user(items[a]) && is_user(items[b]));
    }
}

proof fn lemma_called_tool(items: Seq<ItemView>, n: int, id: Seq<char>, tool: Seq<char>)
    requires
        0 <= n <= items.len(),
    ensures
        called_tool(items.take(n), id) == Some(tool) <==> exists|j: int|
            {
                &&& 0 <= j < n
                &&& match #[trigger] items[j] {
                    ItemView::FunctionCall { call_id, name, .. } => call_id == id && name == tool,
                    ItemView::CustomToolCall { call_id, name, .. } => call_id == id && name == tool,
                    _ => false,
                }
                &&& forall|m: int|
                    j < m < n ==> match #[trigger] items[m] {
                        ItemView::FunctionCall { call_id, .. } => call_id != id,
                        ItemView::CustomToolCall { call_id, .. } => call_id != id,
                        _ => true,
                    }
            },
    decreases n,
{
    let calls = |item: ItemView, wanted: Seq<char>|
        match item {
            ItemView::FunctionCall { call_id, name, .. } => call_id == id && name == wanted,
            ItemView::CustomToolCall { call_id, name, .. } => call_id == id && name == wanted,
            _ => false,
        };
    if n > 0 {
        lemma_called_tool(items, n - 1, id, tool);
        assert(items.take(n).drop_last() =~= items.take(n - 1));
        assert(items.take(n).last() == items[n - 1]);
        let last_has_id = match items[n - 1] {
            ItemView::FunctionCall { call_id, .. } => call_id == id,
            ItemView::CustomToolCall { call_id, .. } => call_id == id,
            _ => false,
        };
        if last_has_id {
            if called_tool(items.take(n), id) == Some(tool) {
                assert(calls(items[n - 1], tool));
            }
        } else if called_tool(items.take(n - 1), id) == Some(tool) {
            let j = choose|j: int|
                {
                    &&& 0 <= j < n - 1
                    &&& match #[trigger] items[j] {
                        ItemView::FunctionCall { call_id, name, .. } => call_id == id && name
                            == tool,
                        ItemView::CustomToolCall { call_id, name, .. } => call_id == id && name
                            == tool,
                        _ => false,
                    }
                    &&& forall|m: int|
                        j < m < n - 1 ==> match #[trigger] items[m] {
                            ItemView::FunctionCall { call_id, .. } => call_id != id,
                            ItemView::CustomToolCall { call_id, .. } => call_id != id,
                            _ => true,
                        }
                };
            assert(calls(items[j], tool));
        }
    }
}

proof fn lemma_window_sums(
    items: Seq<ItemView>,
    tokens: Seq<usize>,
    counted: Seq<bool>,
    newer: Seq<nat>,
    freed: Seq<nat>,
    i: int,
)
    requires
        0 <= i <= items.len(),
        counted.len() == items.len(),
        forall|k: int| 0 <= k < items.len() ==> #[trigger] counted[k] == may_clear(items, k),
        newer.len() == items.len() + 1,
        newer.last() == 0,
        forall|k: int|
            0 <= k < items.len() ==> #[trigger] newer[k] == newer[k + 1] + (if counted[k] {
                tokens[k] as nat
            } else {
                0
            }),
        freed.len() == items.len() + 1,
        freed.last() == 0,
        forall|k: int|
            0 <= k < items.len() ==> #[trigger] freed[k] == freed[k + 1] + (if counted[k]
                && newer[k] > 40_000 {
                tokens[k] as nat
            } else {
                0
            }),
    ensures
        tokens_from(items, tokens, i) == newer[i],
        freed_from(items, tokens, i) == freed[i],
    decreases items.len() - i,
{
    if i < items.len() {
        lemma_window_sums(items, tokens, counted, newer, freed, i + 1);
        assert(counted[i] == may_clear(items, i));
        assert(newer[i] == newer[i + 1] + (if counted[i] {
            tokens[i] as nat
        } else {
            0
        }));
        assert(freed[i] == freed[i + 1] + (if counted[i] && newer[i] > 40_000 {
            tokens[i] as nat
        } else {
            0
        }));
    }
}

/// Pruning replaces the body of an output exactly where it lies past the newest 40,000 tokens of
/// the outputs that count, and where those past them hold more than 20,000 tokens together. An
/// output counts where two user messages follow it, it did not fail, it has the id of a call, and
/// the last call with that id did not go to `apply_patch`. Every other item stays as it is.
///
/// `counted` tells which outputs count, `newer` the tokens of those from an item on, and `freed`
/// the tokens of those of them that lie past the window.
pub proof fn law_prune_clears_exactly_what_lies_past_the_window(
    items: Seq<ItemView>,
    tokens: Seq<usize>,
    is_user: spec_fn(ItemView) -> bool,
    patches: spec_fn(Seq<char>) -> bool,
    counted: Seq<bool>,
    newer: Seq<nat>,
    freed: Seq<nat>,
    i: int,
)
    requires
        forall|item: ItemView|
            #[trigger] is_user(item) <==> (item matches ItemView::Message { role, metadata, .. }
                && role == "user"@ && (metadata matches Some(Some(kinds)) ==> exists|k: int|
                0 <= k < kinds.len() && (#[trigger] kinds[k]).len() >= 5 && kinds[k].take(5)
                    == "user."@)),
        forall|id: Seq<char>|
            #[trigger] patches(id) <==> exists|j: int|
                {
                    &&& 0 <= j < items.len()
                    &&& match #[trigger] items[j] {
                        ItemView::FunctionCall { call_id, name, .. } => call_id == id && name
                            == "apply_patch"@,
                        ItemView::CustomToolCall { call_id, name, .. } => call_id == id && name
                            == "apply_patch"@,
                        _ => false,
                    }
                    &&& forall|m: int|
                        j < m < items.len() ==> match #[trigger] items[m] {
                            ItemView::FunctionCall { call_id, .. } => call_id != id,
                            ItemView::CustomToolCall { call_id, .. } => call_id != id,
                            _ => true,
                        }
                },
        counted.len() == items.len(),
        forall|k: int|
            0 <= k < items.len() ==> (#[trigger] counted[k] <==> {
                &&& exists|a: int, b: int|
                    k < a < b < items.len() && is_user(#[trigger] items[a]) && is_user(
                        #[trigger] items[b],
                    )
                &&& match items[k] {
                    ItemView::FunctionCallOutput { call_id: Some(id), output, .. } => output.success
                        != Some(false) && !patches(id),
                    ItemView::CustomToolCallOutput { call_id, .. } => !patches(call_id),
                    _ => false,
                }
            }),
        newer.len() == items.len() + 1,
        newer.last() == 0,
        forall|k: int|
            0 <= k < items.len() ==> #[trigger] newer[k] == newer[k + 1] + (if counted[k] {
                tokens[k] as nat
            } else {
                0
            }),
        freed.len() == items.len() + 1,
        freed.last() == 0,
        forall|k: int|
            0 <= k < items.len() ==> #[trigger] freed[k] == freed[k + 1] + (if counted[k]
                && newer[k] > 40_000 {
                tokens[k] as nat
            } else {
                0
            }),
        0 <= i < items.len(),
    ensures
        pruned(items, tokens).len() == items.len(),
        !(counted[i] && newer[i] > 40_000 && freed[0] > 20_000) ==> pruned(items, tokens)[i]
            == items[i],
        counted[i] && newer[i] > 40_000 && freed[0] > 20_000 ==> match items[i] {
            ItemView::FunctionCallOutput { id, call_id, name, namespace, output, metadata } => pruned(
                items,
                tokens,
            )[i] == (ItemView::FunctionCallOutput {
                id,
                call_id,
                name,
                namespace,
                output: OutputView {
                    body: OutputBodyView::Text("[Old tool result content cleared]"@),
                    success: output.success,
                },
                metadata,
            }),
            ItemView::CustomToolCallOutput { id, call_id, output, rest } => pruned(
                items,
                tokens,
            )[i] == (ItemView::CustomToolCallOutput {
                id,
                call_id,
                output: OutputView {
                    body: OutputBodyView::Text("[Old tool result content cleared]"@),
                    success: output.success,
                },
                rest,
            }),
            _ => false,
        },
{
    assert forall|item: ItemView| is_user_input_spec(item) == #[trigger] is_user(item) by {
        law_user_input_is_a_user_message(item);
    }
    assert forall|id: Seq<char>| is_protected_tool(called_tool(items, id)) == #[trigger] patches(
        id,
    ) by {
        lemma_called_tool(items, items.len() as int, id, "apply_patch"@);
        assert(items.take(items.len() as int) =~= items);
    }
    assert forall|k: int| 0 <= k < items.len() implies #[trigger] counted[k] == may_clear(
        items,
        k,
    ) by {
        lemma_turns_from(items, k + 1);
        let two = exists|a: int, b: int|
            k < a < b < items.len() && is_user(#[trigger] items[a]) && is_user(
                #[trigger] items[b],
            );
        if two {
            let (a, b) = choose|a: int, b: int|
                k < a < b < items.len() && is_user(#[trigger] items[a]) && is_user(
                    #[trigger] items[b],
                );
            assert(k + 1 <= a < b < items.len() && is_user_input_spec(items[a])
                && is_user_input_spec(items[b]));
        }
        if user_turns(items.skip(k + 1)) >= 2 {
            let (a, b) = choose|a: int, b: int|
                k + 1 <= a < b < items.len() && is_user_input_spec(#[trigger] items[a])
                    && is_user_input_spec(#[trigger] items[b]);
            assert(k < a < b < items.len() && is_user(items[a]) && is_user(items[b]));
        }
        assert(two == (user_turns(items.skip(k + 1)) >= 2));
    }
    lemma_window_sums(items, tokens, counted, newer, freed, i);
    lemma_window_sums(items, tokens, counted, newer, freed, 0);
    assert(counted[i] == may_clear(items, i));
}

/// Where a counter gives each text one size, the size of an output is the one it gives the output's
/// text, and an output without text has none.
pub proof fn law_outputs_are_sized_by_their_text<F: Fn(&str) -> usize>(
    count: F,
    size: spec_fn(Seq<char>) -> usize,
    output: OutputView,
    n: usize,
    item: ItemView,
)
    requires
        forall|t: &str, k: usize| #[trigger] call_ensures(count, (t,), k) ==> k == size(t@),
        match item {
            ItemView::FunctionCallOutput { output: o, .. } => o == output,
            ItemView::CustomToolCallOutput { output: o, .. } => o == output,
            _ => false,
        },
        output_counted_as(count, item, n),
    ensures
        output.body matches OutputBodyView::Text(text) ==> n == size(text),
        output.body matches OutputBodyView::ContentItems { text: Some(text), .. } ==> n == size(
            text,
        ),
        output.body matches OutputBodyView::ContentItems { text: None, .. } ==> n == 0,
{
}

} // verus!

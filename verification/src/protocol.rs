//! The conversation items that a session keeps, and what is read of them.

use vstd::prelude::*;

verus! {

/// The text of an optional string.
pub open spec fn optional_text(text: Option<String>) -> Option<Seq<char>> {
    match text {
        Some(t) => Some(t@),
        None => None,
    }
}

/// A copy of an optional string.
pub fn copy_optional(text: &Option<String>) -> (r: Option<String>)
    ensures
        optional_text(r) == optional_text(*text),
{
    match text {
        Some(t) => Some(t.clone()),
        None => None,
    }
}

/// What a piece of message content is, as a dotted name such as `user.text`.
#[derive(Debug, PartialEq, Eq)]
pub struct ContentItemKind(pub String);

impl View for ContentItemKind {
    type V = Seq<char>;

    open spec fn view(&self) -> Seq<char> {
        self.0@
    }
}

impl Clone for ContentItemKind {
    fn clone(&self) -> (r: Self)
        ensures
            r@ == self@,
    {
        ContentItemKind(self.0.clone())
    }
}

/// What a session notes about a message beside its content.
#[derive(Debug, PartialEq, Eq)]
pub struct ChatMessageMetadata {
    /// The kinds of the message's content items, where they were noted.
    pub content_item_kinds: Option<Vec<ContentItemKind>>,
}

/// The names of a list of kinds.
pub open spec fn kind_names(kinds: Seq<ContentItemKind>) -> Seq<Seq<char>> {
    kinds.map_values(|kind: ContentItemKind| kind@)
}

impl View for ChatMessageMetadata {
    type V = Option<Seq<Seq<char>>>;

    open spec fn view(&self) -> Option<Seq<Seq<char>>> {
        match self.content_item_kinds {
            Some(kinds) => Some(kind_names(kinds@)),
            None => None,
        }
    }
}

impl Clone for ChatMessageMetadata {
    fn clone(&self) -> (r: Self)
        ensures
            r@ == self@,
    {
        match &self.content_item_kinds {
            Some(kinds) => {
                let mut copied: Vec<ContentItemKind> = Vec::new();
                let mut i: usize = 0;
                while i < kinds.len()
                    invariant
                        i <= kinds.len(),
                        copied.len() == i,
                        forall|k: int| 0 <= k < i ==> (#[trigger] copied@[k])@ == kinds@[k]@,
                    decreases kinds.len() - i,
                {
                    copied.push(kinds[i].clone());
                    i = i + 1;
                }
                assert(kind_names(copied@) =~= kind_names(kinds@));
                ChatMessageMetadata { content_item_kinds: Some(copied) }
            },
            None => ChatMessageMetadata { content_item_kinds: None },
        }
    }
}

/// The metadata of a message that may have none.
pub open spec fn optional_metadata(
    metadata: Option<ChatMessageMetadata>,
) -> Option<Option<Seq<Seq<char>>>> {
    match metadata {
        Some(m) => Some(m@),
        None => None,
    }
}

fn copy_metadata(metadata: &Option<ChatMessageMetadata>) -> (r: Option<ChatMessageMetadata>)
    ensures
        optional_metadata(r) == optional_metadata(*metadata),
{
    match metadata {
        Some(m) => Some(m.clone()),
        None => None,
    }
}

/// One piece of a message's content.
#[derive(Debug, PartialEq, Eq)]
pub enum ContentItem {
    /// Text that was put in.
    InputText { text: String },
    /// Anything else, in its serialized form.
    Other { raw: String },
}

/// A content item, with its text.
pub enum ContentItemView {
    InputText { text: Seq<char> },
    Other { raw: Seq<char> },
}

impl View for ContentItem {
    type V = ContentItemView;

    open spec fn view(&self) -> ContentItemView {
        match self {
            ContentItem::InputText { text } => ContentItemView::InputText { text: text@ },
            ContentItem::Other { raw } => ContentItemView::Other { raw: raw@ },
        }
    }
}

impl Clone for ContentItem {
    fn clone(&self) -> (r: Self)
        ensures
            r@ == self@,
    {
        match self {
            ContentItem::InputText { text } => ContentItem::InputText { text: text.clone() },
            ContentItem::Other { raw } => ContentItem::Other { raw: raw.clone() },
        }
    }
}

/// The views of a list of content items.
pub open spec fn content_views(content: Seq<ContentItem>) -> Seq<ContentItemView> {
    content.map_values(|item: ContentItem| item@)
}

fn copy_content(content: &Vec<ContentItem>) -> (r: Vec<ContentItem>)
    ensures
        content_views(r@) == content_views(content@),
{
    let mut copied: Vec<ContentItem> = Vec::new();
    let mut i: usize = 0;
    while i < content.len()
        invariant
            i <= content.len(),
            copied.len() == i,
            forall|k: int| 0 <= k < i ==> (#[trigger] copied@[k])@ == content@[k]@,
        decreases content.len() - i,
    {
        copied.push(content[i].clone());
        i = i + 1;
    }
    assert(content_views(copied@) =~= content_views(content@));
    copied
}

/// What a tool gave back.
#[derive(Debug, PartialEq, Eq)]
pub enum FunctionCallOutputBody {
    /// Plain text.
    Text(String),
    /// Structured content, in its serialized form, with the text that stands in it, if any.
    ContentItems { raw: String, text: Option<String> },
}

/// A tool output's body, with its text.
pub enum OutputBodyView {
    Text(Seq<char>),
    ContentItems { raw: Seq<char>, text: Option<Seq<char>> },
}

impl OutputBodyView {
    /// The text that stands in the body, if any.
    pub open spec fn text(self) -> Option<Seq<char>> {
        match self {
            OutputBodyView::Text(text) => Some(text),
            OutputBodyView::ContentItems { text, .. } => text,
        }
    }
}

impl View for FunctionCallOutputBody {
    type V = OutputBodyView;

    open spec fn view(&self) -> OutputBodyView {
        match self {
            FunctionCallOutputBody::Text(text) => OutputBodyView::Text(text@),
            FunctionCallOutputBody::ContentItems { raw, text } => OutputBodyView::ContentItems {
                raw: raw@,
                text: optional_text(*text),
            },
        }
    }
}

impl Clone for FunctionCallOutputBody {
    fn clone(&self) -> (r: Self)
        ensures
            r@ == self@,
    {
        match self {
            FunctionCallOutputBody::Text(text) => FunctionCallOutputBody::Text(text.clone()),
            FunctionCallOutputBody::ContentItems { raw, text } => {
                FunctionCallOutputBody::ContentItems {
                    raw: raw.clone(),
                    text: copy_optional(text),
                }
            },
        }
    }
}

impl FunctionCallOutputBody {
    /// The text that stands in the body, if any.
    pub fn to_text(&self) -> (r: Option<&str>)
        ensures
            match r {
                Some(text) => self@.text() == Some(text@),
                None => self@.text() is None,
            },
    {
        match self {
            FunctionCallOutputBody::Text(text) => Some(text.as_str()),
            FunctionCallOutputBody::ContentItems { text, .. } => match text {
                Some(t) => Some(t.as_str()),
                None => None,
            },
        }
    }
}

/// What a tool gave back, and whether it succeeded, where that is known.
#[derive(Debug, PartialEq, Eq)]
pub struct FunctionCallOutputPayload {
    pub body: FunctionCallOutputBody,
    pub success: Option<bool>,
}

/// A tool output, with its text.
pub struct OutputView {
    pub body: OutputBodyView,
    pub success: Option<bool>,
}

impl View for FunctionCallOutputPayload {
    type V = OutputView;

    open spec fn view(&self) -> OutputView {
        OutputView { body: self.body@, success: self.success }
    }
}

impl Clone for FunctionCallOutputPayload {
    fn clone(&self) -> (r: Self)
        ensures
            r@ == self@,
    {
        FunctionCallOutputPayload { body: self.body.clone(), success: self.success }
    }
}

impl FunctionCallOutputPayload {
    /// The output's text, where its body is plain text.
    pub fn text_content(&self) -> (r: Option<&str>)
        ensures
            match r {
                Some(text) => self@.body == OutputBodyView::Text(text@),
                None => !(self@.body is Text),
            },
    {
        match &self.body {
            FunctionCallOutputBody::Text(text) => Some(text.as_str()),
            FunctionCallOutputBody::ContentItems { .. } => None,
        }
    }
}

/// One item of a conversation.
#[allow(inconsistent_fields)]
#[derive(Debug, PartialEq, Eq)]
pub enum ResponseItem {
    Message {
        id: Option<String>,
        role: String,
        content: Vec<ContentItem>,
        phase: Option<String>,
        internal_chat_message_metadata_passthrough: Option<ChatMessageMetadata>,
    },
    FunctionCall {
        id: Option<String>,
        name: String,
        namespace: Option<String>,
        arguments: String,
        encrypted_function_args: Option<String>,
        call_id: String,
        internal_chat_message_metadata_passthrough: Option<ChatMessageMetadata>,
    },
    FunctionCallOutput {
        id: Option<String>,
        call_id: Option<String>,
        name: Option<String>,
        namespace: Option<String>,
        output: FunctionCallOutputPayload,
        internal_chat_message_metadata_passthrough: Option<ChatMessageMetadata>,
    },
    /// `rest` holds the item's other fields, in their serialized form.
    CustomToolCall {
        id: Option<String>,
        call_id: String,
        name: String,
        input: String,
        rest: String,
    },
    /// `rest` holds the item's other fields, in their serialized form.
    CustomToolCallOutput {
        id: Option<String>,
        call_id: String,
        output: FunctionCallOutputPayload,
        rest: String,
    },
    /// Any other item, in its serialized form.
    Other { raw: String },
}

/// A conversation item, with its text.
#[allow(inconsistent_fields)]
pub enum ItemView {
    Message {
        id: Option<Seq<char>>,
        role: Seq<char>,
        content: Seq<ContentItemView>,
        phase: Option<Seq<char>>,
        metadata: Option<Option<Seq<Seq<char>>>>,
    },
    FunctionCall {
        id: Option<Seq<char>>,
        name: Seq<char>,
        namespace: Option<Seq<char>>,
        arguments: Seq<char>,
        encrypted_function_args: Option<Seq<char>>,
        call_id: Seq<char>,
        metadata: Option<Option<Seq<Seq<char>>>>,
    },
    FunctionCallOutput {
        id: Option<Seq<char>>,
        call_id: Option<Seq<char>>,
        name: Option<Seq<char>>,
        namespace: Option<Seq<char>>,
        output: OutputView,
        metadata: Option<Option<Seq<Seq<char>>>>,
    },
    CustomToolCall {
        id: Option<Seq<char>>,
        call_id: Seq<char>,
        name: Seq<char>,
        input: Seq<char>,
        rest: Seq<char>,
    },
    CustomToolCallOutput {
        id: Option<Seq<char>>,
        call_id: Seq<char>,
        output: OutputView,
        rest: Seq<char>,
    },
    Other { raw: Seq<char> },
}

impl View for ResponseItem {
    type V = ItemView;

    open spec fn view(&self) -> ItemView {
        match self {
            ResponseItem::Message {
                id,
                role,
                content,
                phase,
                internal_chat_message_metadata_passthrough,
            } => ItemView::Message {
                id: optional_text(*id),
                role: role@,
                content: content_views(content@),
                phase: optional_text(*phase),
                metadata: optional_metadata(*internal_chat_message_metadata_passthrough),
            },
            ResponseItem::FunctionCall {
                id,
                name,
                namespace,
                arguments,
                encrypted_function_args,
                call_id,
                internal_chat_message_metadata_passthrough,
            } => ItemView::FunctionCall {
                id: optional_text(*id),
                name: name@,
                namespace: optional_text(*namespace),
                arguments: arguments@,
                encrypted_function_args: optional_text(*encrypted_function_args),
                call_id: call_id@,
                metadata: optional_metadata(*internal_chat_message_metadata_passthrough),
            },
            ResponseItem::FunctionCallOutput {
                id,
                call_id,
                name,
                namespace,
                output,
                internal_chat_message_metadata_passthrough,
            } => ItemView::FunctionCallOutput {
                id: optional_text(*id),
                call_id: optional_text(*call_id),
                name: optional_text(*name),
                namespace: optional_text(*namespace),
                output: output@,
                metadata: optional_metadata(*internal_chat_message_metadata_passthrough),
            },
            ResponseItem::CustomToolCall { id, call_id, name, input, rest } => {
                ItemView::CustomToolCall {
                    id: optional_text(*id),
                    call_id: call_id@,
                    name: name@,
                    input: input@,
                    rest: rest@,
                }
            },
            ResponseItem::CustomToolCallOutput { id, call_id, output, rest } => {
                ItemView::CustomToolCallOutput {
                    id: optional_text(*id),
                    call_id: call_id@,
                    output: output@,
                    rest: rest@,
                }
            },
            ResponseItem::Other { raw } => ItemView::Other { raw: raw@ },
        }
    }
}

impl Clone for ResponseItem {
    fn clone(&self) -> (r: Self)
        ensures
            r@ == self@,
    {
        match self {
            ResponseItem::Message {
                id,
                role,
                content,
                phase,
                internal_chat_message_metadata_passthrough,
            } => ResponseItem::Message {
                id: copy_optional(id),
                role: role.clone(),
                content: copy_content(content),
                phase: copy_optional(phase),
                internal_chat_message_metadata_passthrough: copy_metadata(
                    internal_chat_message_metadata_passthrough,
                ),
            },
            ResponseItem::FunctionCall {
                id,
                name,
                namespace,
                arguments,
                encrypted_function_args,
                call_id,
                internal_chat_message_metadata_passthrough,
            } => ResponseItem::FunctionCall {
                id: copy_optional(id),
                name: name.clone(),
                namespace: copy_optional(namespace),
                arguments: arguments.clone(),
                encrypted_function_args: copy_optional(encrypted_function_args),
                call_id: call_id.clone(),
                internal_chat_message_metadata_passthrough: copy_metadata(
                    internal_chat_message_metadata_passthrough,
                ),
            },
            ResponseItem::FunctionCallOutput {
                id,
                call_id,
                name,
                namespace,
                output,
                internal_chat_message_metadata_passthrough,
            } => ResponseItem::FunctionCallOutput {
                id: copy_optional(id),
                call_id: copy_optional(call_id),
                name: copy_optional(name),
                namespace: copy_optional(namespace),
                output: output.clone(),
                internal_chat_message_metadata_passthrough: copy_metadata(
                    internal_chat_message_metadata_passthrough,
                ),
            },
            ResponseItem::CustomToolCall { id, call_id, name, input, rest } => {
                ResponseItem::CustomToolCall {
                    id: copy_optional(id),
                    call_id: call_id.clone(),
                    name: name.clone(),
                    input: input.clone(),
                    rest: rest.clone(),
                }
            },
            ResponseItem::CustomToolCallOutput { id, call_id, output, rest } => {
                ResponseItem::CustomToolCallOutput {
                    id: copy_optional(id),
                    call_id: call_id.clone(),
                    output: output.clone(),
                    rest: rest.clone(),
                }
            },
            ResponseItem::Other { raw } => ResponseItem::Other { raw: raw.clone() },
        }
    }
}

/// The views of a list of items.
pub open spec fn item_views(items: Seq<ResponseItem>) -> Seq<ItemView> {
    items.map_values(|item: ResponseItem| item@)
}

/// A text that may be missing is there exactly where its string is.
pub proof fn law_optional_text_is_the_strings(text: Option<String>)
    ensures
        text matches Some(t) ==> optional_text(text) == Some(t@),
        text is None ==> optional_text(text) is None,
{
}

/// The view of a message, a call or an output holds each of its fields, and no item is shown as one
/// of another kind.
pub proof fn law_item_views_hold_each_field(item: ResponseItem)
    ensures
        match item {
            ResponseItem::Message {
                id,
                role,
                content,
                phase,
                internal_chat_message_metadata_passthrough,
            } => item@ == (ItemView::Message {
                id: optional_text(id),
                role: role@,
                content: content_views(content@),
                phase: optional_text(phase),
                metadata: optional_metadata(internal_chat_message_metadata_passthrough),
            }),
            ResponseItem::FunctionCall { call_id, name, arguments, .. } => item@ matches ItemView::FunctionCall {
                call_id: c,
                name: n,
                arguments: a,
                ..
            } && c == call_id@ && n == name@ && a == arguments@,
            ResponseItem::FunctionCallOutput { call_id, output, .. } => item@ matches ItemView::FunctionCallOutput {
                call_id: c,
                output: o,
                ..
            } && c == optional_text(call_id) && o == output@,
            ResponseItem::CustomToolCall { call_id, name, input, rest, .. } => item@ matches ItemView::CustomToolCall {
                call_id: c,
                name: n,
                input: i,
                rest: r,
                ..
            } && c == call_id@ && n == name@ && i == input@ && r == rest@,
            ResponseItem::CustomToolCallOutput { call_id, output, rest, .. } => item@ matches ItemView::CustomToolCallOutput {
                call_id: c,
                output: o,
                rest: r,
                ..
            } && c == call_id@ && o == output@ && r == rest@,
            ResponseItem::Other { raw } => item@ == (ItemView::Other { raw: raw@ }),
        },
{
}

/// Two items that are shown alike have the same texts in all their fields, the ids, names, spaces
/// and arguments included.
pub proof fn law_items_shown_alike_are_alike(one: ResponseItem, other: ResponseItem)
    requires
        one@ == other@,
    ensures
        one matches ResponseItem::FunctionCall {
            id,
            name,
            namespace,
            arguments,
            encrypted_function_args,
            call_id,
            ..
        } ==> (other matches ResponseItem::FunctionCall {
            id: id2,
            name: name2,
            namespace: namespace2,
            arguments: arguments2,
            encrypted_function_args: encrypted2,
            call_id: call_id2,
            ..
        } && optional_text(id) == optional_text(id2) && name@ == name2@ && optional_text(namespace)
            == optional_text(namespace2) && arguments@ == arguments2@ && optional_text(
            encrypted_function_args,
        ) == optional_text(encrypted2) && call_id@ == call_id2@),
        one matches ResponseItem::FunctionCallOutput { id, call_id, name, namespace, output, .. }
            ==> (other matches ResponseItem::FunctionCallOutput {
            id: id2,
            call_id: call_id2,
            name: name2,
            namespace: namespace2,
            output: output2,
            ..
        } && optional_text(id) == optional_text(id2) && optional_text(call_id) == optional_text(
            call_id2,
        ) && optional_text(name) == optional_text(name2) && optional_text(namespace)
            == optional_text(namespace2) && output.success == output2.success),
        one matches ResponseItem::CustomToolCallOutput { id, call_id, output, rest } ==> (
        other matches ResponseItem::CustomToolCallOutput {
            id: id2,
            call_id: call_id2,
            output: output2,
            rest: rest2,
        } && optional_text(id) == optional_text(id2) && call_id@ == call_id2@ && output.success
            == output2.success && rest@ == rest2@),
{
}

/// The view of a tool's output holds its body and whether it succeeded. The text of a body is its
/// plain text, or the text that stands in its structured content, if any.
pub proof fn law_output_views_hold_the_body(
    output: FunctionCallOutputPayload,
    text: String,
    raw: String,
    inner: Option<String>,
)
    ensures
        output@.body == output.body@,
        output@.success == output.success,
        FunctionCallOutputBody::Text(text)@ == OutputBodyView::Text(text@),
        (FunctionCallOutputBody::ContentItems { raw, text: inner })@ == (
        OutputBodyView::ContentItems { raw: raw@, text: optional_text(inner) }),
        OutputBodyView::Text(text@).text() == Some(text@),
        (OutputBodyView::ContentItems { raw: raw@, text: optional_text(inner) }).text()
            == optional_text(inner),
{
}

/// The content, the noted kinds and the items of a conversation are shown one by one, in order.
pub proof fn law_lists_are_shown_in_order(
    items: Seq<ResponseItem>,
    content: Seq<ContentItem>,
    metadata: ChatMessageMetadata,
    i: int,
)
    ensures
        item_views(items).len() == items.len(),
        0 <= i < items.len() ==> item_views(items)[i] == items[i]@,
        content_views(content).len() == content.len(),
        0 <= i < content.len() ==> (content[i] matches ContentItem::InputText { text }
            ==> content_views(content)[i] == (ContentItemView::InputText { text: text@ })),
        0 <= i < content.len() ==> (content[i] matches ContentItem::Other { raw }
            ==> content_views(content)[i] == (ContentItemView::Other { raw: raw@ })),
        metadata.content_item_kinds is None ==> metadata@ is None,
        metadata.content_item_kinds matches Some(kinds) ==> (metadata@ matches Some(names)
            && names.len() == kinds.len() && (0 <= i < kinds.len() ==> names[i] == kinds[i].0@)),
        optional_metadata(Some(metadata)) == Some(metadata@),
        optional_metadata(None) is None,
{
}

} // verus!

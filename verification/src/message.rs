//! A display-safe projection of structured messages.
//!
//! A message is an ordered list of content items; tool responses among them
//! carry either a successful result holding content blocks or an error. The
//! projector rebuilds only the text blocks of successful tool responses whose
//! text exceeds the display limit, and passes everything else through
//! untouched: ordering, count, identifiers, metadata, error branches and
//! non-text blocks are all preserved. The caller keeps the untruncated
//! original for further processing.
//!
//! Non-text block payloads are outside this library's concern; a block that
//! carries no text holds an opaque handle under which the caller keeps the
//! real payload, and the projector carries the handle through unchanged.

use vstd::prelude::*;
use vstd::string::*;

use crate::truncate::{
    truncate_tool_text_for_display, truncated_display, MAX_TOOL_OUTPUT_DISPLAY_CHARS,
};

verus! {

/// Who produced a message. Untouched by the projection.
#[derive(Clone, Copy, PartialEq, Eq, Debug, Structural)]
pub enum Role {
    User,
    Assistant,
}

/// One block of a successful tool result: either text, or some other payload
/// kept by the caller under an opaque handle.
#[derive(Debug)]
pub enum Content {
    Text(String),
    Other(u64),
}

/// The error branch of a tool result. Passed through untouched.
#[derive(Debug)]
pub struct ErrorData {
    pub code: i64,
    pub message: String,
}

/// A successful tool result: its content blocks, and whether the tool itself
/// reported failure.
#[derive(Debug)]
pub struct CallToolResult {
    pub content: Vec<Content>,
    pub is_error: Option<bool>,
}

/// A tool response inside a message: the identifier of the call, the result,
/// and opaque metadata.
#[derive(Debug)]
pub struct ToolResponse {
    pub id: String,
    pub tool_result: Result<CallToolResult, ErrorData>,
    pub metadata: Option<String>,
}

/// One content item of a message.
#[derive(Debug)]
pub enum MessageContent {
    Text(String),
    ToolResponse(ToolResponse),
}

/// An ordered list of content items with its metadata.
#[derive(Debug)]
pub struct Message {
    pub role: Role,
    pub created: i64,
    pub content: Vec<MessageContent>,
}

/// Mathematical model of a content block.
#[verifier::ext_equal]
pub enum ContentView {
    Text(Seq<char>),
    Other(u64),
}

/// Mathematical model of the error branch.
#[verifier::ext_equal]
pub struct ErrorDataView {
    pub code: int,
    pub message: Seq<char>,
}

/// Mathematical model of a successful tool result.
#[verifier::ext_equal]
pub struct CallToolResultView {
    pub content: Seq<ContentView>,
    pub is_error: Option<bool>,
}

/// Mathematical model of a tool response.
#[verifier::ext_equal]
pub struct ToolResponseView {
    pub id: Seq<char>,
    pub tool_result: Result<CallToolResultView, ErrorDataView>,
    pub metadata: Option<Seq<char>>,
}

/// Mathematical model of a content item.
#[verifier::ext_equal]
pub enum MessageContentView {
    Text(Seq<char>),
    ToolResponse(ToolResponseView),
}

/// Mathematical model of a message.
#[verifier::ext_equal]
pub struct MessageView {
    pub role: Role,
    pub created: int,
    pub content: Seq<MessageContentView>,
}

impl View for Content {
    type V = ContentView;

    open spec fn view(&self) -> ContentView {
        match self {
            Content::Text(t) => ContentView::Text(t@),
            Content::Other(k) => ContentView::Other(*k),
        }
    }
}

impl View for ErrorData {
    type V = ErrorDataView;

    open spec fn view(&self) -> ErrorDataView {
        ErrorDataView { code: self.code as int, message: self.message@ }
    }
}

impl View for CallToolResult {
    type V = CallToolResultView;

    open spec fn view(&self) -> CallToolResultView {
        CallToolResultView {
            content: Seq::new(self.content@.len(), |i: int| self.content@[i]@),
            is_error: self.is_error,
        }
    }
}

impl View for ToolResponse {
    type V = ToolResponseView;

    open spec fn view(&self) -> ToolResponseView {
        ToolResponseView {
            id: self.id@,
            tool_result: match &self.tool_result {
                Ok(res) => Ok(res@),
                Err(e) => Err(e@),
            },
            metadata: match &self.metadata {
                Some(m) => Some(m@),
                None => None,
            },
        }
    }
}

impl View for MessageContent {
    type V = MessageContentView;

    open spec fn view(&self) -> MessageContentView {
        match self {
            MessageContent::Text(t) => MessageContentView::Text(t@),
            MessageContent::ToolResponse(r) => MessageContentView::ToolResponse(r@),
        }
    }
}

impl View for Message {
    type V = MessageView;

    open spec fn view(&self) -> MessageView {
        MessageView {
            role: self.role,
            created: self.created as int,
            content: Seq::new(self.content@.len(), |i: int| self.content@[i]@),
        }
    }
}

/// How one block is projected for display: text over the limit becomes the
/// annotated truncation, every other block stays as it is.
pub open spec fn project_block(b: ContentView) -> ContentView {
    match b {
        ContentView::Text(t) => if t.len() > MAX_TOOL_OUTPUT_DISPLAY_CHARS {
            ContentView::Text(truncated_display(t))
        } else {
            b
        },
        ContentView::Other(_) => b,
    }
}

/// How a successful tool result is projected: each block in place, the
/// failure flag untouched.
pub open spec fn project_result(res: CallToolResultView) -> CallToolResultView {
    CallToolResultView {
        content: Seq::new(res.content.len(), |i: int| project_block(res.content[i])),
        is_error: res.is_error,
    }
}

/// How one content item is projected: only a tool response holding a
/// successful result is a candidate; its identifier and metadata are kept.
/// Plain text items and error-carrying responses stay as they are.
pub open spec fn project_item(item: MessageContentView) -> MessageContentView {
    match item {
        MessageContentView::ToolResponse(resp) => match resp.tool_result {
            Ok(res) => MessageContentView::ToolResponse(
                ToolResponseView {
                    id: resp.id,
                    tool_result: Ok(project_result(res)),
                    metadata: resp.metadata,
                },
            ),
            Err(_) => item,
        },
        MessageContentView::Text(_) => item,
    }
}

/// How a whole message is projected: every item in place, metadata untouched.
pub open spec fn project_message(m: MessageView) -> MessageView {
    MessageView {
        role: m.role,
        created: m.created,
        content: Seq::new(m.content.len(), |i: int| project_item(m.content[i])),
    }
}

/// All the text carried by plain text items, in order.
pub open spec fn concat_texts(items: Seq<MessageContentView>) -> Seq<char>
    decreases items.len(),
{
    if items.len() == 0 {
        Seq::empty()
    } else {
        concat_texts(items.drop_last()) + match items.last() {
            MessageContentView::Text(t) => t,
            MessageContentView::ToolResponse(_) => Seq::empty(),
        }
    }
}

fn clone_string_option(m: &Option<String>) -> (r: Option<String>)
    ensures
        r == *m,
{
    match m {
        Some(s) => Some(s.clone()),
        None => None,
    }
}

fn clone_error_data(e: &ErrorData) -> (r: ErrorData)
    ensures
        r == *e,
{
    ErrorData { code: e.code, message: e.message.clone() }
}

/// Project one content block: text over the display limit is replaced by the
/// annotated truncation, anything else is kept as it is.
fn project_content_block(b: &Content) -> (r: Content)
    ensures
        r@ == project_block(b@),
{
    match b {
        Content::Text(t) => match truncate_tool_text_for_display(t.as_str()) {
            Some(truncated) => Content::Text(truncated),
            None => Content::Text(t.clone()),
        },
        Content::Other(k) => Content::Other(*k),
    }
}

/// Project a successful tool result block by block.
fn project_call_tool_result(res: &CallToolResult) -> (r: CallToolResult)
    ensures
        r@ == project_result(res@),
{
    let mut new_content: Vec<Content> = Vec::new();
    let n = res.content.len();
    let mut i: usize = 0;
    while i < n
        invariant
            n == res.content.len(),
            i <= n,
            new_content@.len() == i,
            forall|j: int| 0 <= j < i ==> new_content@[j]@ == project_block(res.content@[j]@),
        decreases n - i,
    {
        new_content.push(project_content_block(&res.content[i]));
        i += 1;
    }
    let r = CallToolResult { content: new_content, is_error: res.is_error };
    proof {
        assert(r@ =~= project_result(res@));
    }
    r
}

/// Project one content item, rebuilding only a successful tool response.
fn project_message_content(item: &MessageContent) -> (r: MessageContent)
    ensures
        r@ == project_item(item@),
{
    match item {
        MessageContent::Text(t) => MessageContent::Text(t.clone()),
        MessageContent::ToolResponse(resp) => match &resp.tool_result {
            Ok(res) => MessageContent::ToolResponse(
                ToolResponse {
                    id: resp.id.clone(),
                    tool_result: Ok(project_call_tool_result(res)),
                    metadata: clone_string_option(&resp.metadata),
                },
            ),
            Err(e) => MessageContent::ToolResponse(
                ToolResponse {
                    id: resp.id.clone(),
                    tool_result: Err(clone_error_data(e)),
                    metadata: clone_string_option(&resp.metadata),
                },
            ),
        },
    }
}

/// Build a copy of a message with tool response text truncated for user
/// display, leaving the given message untouched for agent processing. Only
/// text blocks of successful tool responses change, and only when they
/// exceed the display limit; the copy of a message where nothing exceeds it
/// equals the original.
pub fn truncate_message_for_display(message: &Message) -> (r: Message)
    ensures
        r@ == project_message(message@),
{
    let mut new_content: Vec<MessageContent> = Vec::new();
    let n = message.content.len();
    let mut i: usize = 0;
    while i < n
        invariant
            n == message.content.len(),
            i <= n,
            new_content@.len() == i,
            forall|j: int| 0 <= j < i ==> new_content@[j]@ == project_item(message.content@[j]@),
        decreases n - i,
    {
        new_content.push(project_message_content(&message.content[i]));
        i += 1;
    }
    let r = Message { role: message.role, created: message.created, content: new_content };
    proof {
        assert(r@ =~= project_message(message@));
    }
    r
}

/// A message without any tool response is projected to itself, its content
/// unchanged and its length preserved.
pub proof fn lemma_project_no_tool_response(m: MessageView)
    requires
        forall|i: int| 0 <= i < m.content.len() ==> !(m.content[i] is ToolResponse),
    ensures
        project_message(m) == m,
{
    assert(Seq::new(m.content.len(), |i: int| project_item(m.content[i])) =~= m.content);
    assert(project_message(m) =~= m);
}

/// The projection keeps the message's metadata, the number and order of its
/// items, and passes through untouched every item that is not a successful
/// tool response — the error branch of a tool result included.
pub proof fn lemma_project_preserves_non_candidates(m: MessageView)
    ensures
        project_message(m).role == m.role,
        project_message(m).created == m.created,
        project_message(m).content.len() == m.content.len(),
        forall|i: int|
            0 <= i < m.content.len() && !(m.content[i] is ToolResponse)
                ==> project_message(m).content[i] == m.content[i],
        forall|i: int|
            0 <= i < m.content.len() && (m.content[i] matches MessageContentView::ToolResponse(r)
                && r.tool_result is Err) ==> project_message(m).content[i] == m.content[i],
{
}

impl Message {
    /// A message from its parts.
    pub fn new(role: Role, created: i64, content: Vec<MessageContent>) -> (r: Message)
        ensures
            r == (Message { role, created, content }),
    {
        Message { role, created, content }
    }

    /// All the text carried by this message's plain text items, concatenated
    /// in order.
    pub fn as_concat_text(&self) -> (r: String)
        ensures
            r@ == concat_texts(self@.content),
    {
        let mut out = String::new();
        let n = self.content.len();
        let mut i: usize = 0;
        while i < n
            invariant
                n == self.content.len(),
                i <= n,
                out@ == concat_texts(self@.content.take(i as int)),
            decreases n - i,
        {
            proof {
                assert(self@.content.take(i + 1 as int).drop_last() =~= self@.content.take(
                    i as int,
                ));
                assert(self@.content.take(i + 1 as int).last() == self@.content[i as int]);
            }
            match &self.content[i] {
                MessageContent::Text(t) => {
                    out.append(t.as_str());
                },
                MessageContent::ToolResponse(_) => {},
            }
            i += 1;
        }
        proof {
            assert(self@.content.take(n as int) =~= self@.content);
        }
        out
    }
}

impl MessageContent {
    /// A plain text content item.
    pub fn text(text: String) -> (r: MessageContent)
        ensures
            r == MessageContent::Text(text),
    {
        MessageContent::Text(text)
    }

    /// A tool response content item with empty metadata.
    pub fn tool_response(id: String, tool_result: Result<CallToolResult, ErrorData>) -> (r:
        MessageContent)
        ensures
            r == (MessageContent::ToolResponse(ToolResponse { id, tool_result, metadata: None })),
    {
        MessageContent::ToolResponse(ToolResponse { id, tool_result, metadata: None })
    }
}

impl Content {
    /// A text block.
    pub fn text(text: String) -> (r: Content)
        ensures
            r == Content::Text(text),
    {
        Content::Text(text)
    }

    /// The text of this block, when it carries any.
    pub fn as_text(&self) -> (r: Option<&String>)
        ensures
            self is Text ==> (r matches Some(t) && self@ == ContentView::Text(t@)),
            self is Other ==> r is None,
    {
        match self {
            Content::Text(t) => Some(t),
            Content::Other(_) => None,
        }
    }
}

impl CallToolResult {
    /// A successful result from its blocks.
    pub fn success(content: Vec<Content>) -> (r: CallToolResult)
        ensures
            r == (CallToolResult { content, is_error: Some(false) }),
    {
        CallToolResult { content, is_error: Some(false) }
    }
}

} // verus!

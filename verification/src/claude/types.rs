//! Requests to and replies from the messages API, and the bot's own
//! stored data.

use vstd::prelude::*;

use crate::discord::types::opt_text;

verus! {

/// A request to the messages API.
#[derive(Debug)]
pub struct ClaudeRequest {
    pub model: String,
    pub max_tokens: u32,
    pub system: String,
    pub messages: Vec<ApiMessage>,
}

/// One message of a request.
#[derive(Debug)]
pub struct ApiMessage {
    pub role: String,
    pub content: MessageContent,
}

/// The content of a request message: plain text, or a list of content blocks.
#[derive(Debug)]
pub enum MessageContent {
    Text(String),
    Blocks(Vec<ContentBlock>),
}

/// A content block of a request message.
#[derive(Debug)]
pub enum ContentBlock {
    /// A document uploaded through the Files API, referred to by its id.
    Document { file_id: String, title: Option<String> },
    /// A piece of text.
    Text { text: String },
}

/// The reply of the messages API, as far as the bot reads it.
#[derive(Debug)]
pub struct ClaudeResponse {
    pub content: Vec<ClaudeContent>,
}

/// One content block of a reply.
#[derive(Debug)]
pub struct ClaudeContent {
    pub text: String,
}

/// One stored message of a conversation: `role` is `user` or `assistant`.
#[derive(Debug)]
pub struct HistoryMessage {
    pub role: String,
    pub content: String,
}

/// The list of uploaded files that every conversation starts with.
#[derive(Debug)]
pub struct ContextConfig {
    pub files: Vec<FileRef>,
}

/// An uploaded file: its Files API id and an optional title.
#[derive(Debug)]
pub struct FileRef {
    pub id: String,
    pub title: Option<String>,
}

/// The contents of a `ContentBlock`.
pub enum BlockView {
    Document { file_id: Seq<char>, title: Option<Seq<char>> },
    Text(Seq<char>),
}

impl View for ContentBlock {
    type V = BlockView;

    open spec fn view(&self) -> BlockView {
        match self {
            ContentBlock::Document { file_id, title } => BlockView::Document {
                file_id: file_id@,
                title: opt_text(*title),
            },
            ContentBlock::Text { text } => BlockView::Text(text@),
        }
    }
}

/// The contents of a list of blocks.
pub open spec fn blocks_view(blocks: Seq<ContentBlock>) -> Seq<BlockView> {
    blocks.map_values(|b: ContentBlock| b@)
}

/// The contents of a `MessageContent`.
pub enum ContentView {
    Text(Seq<char>),
    Blocks(Seq<BlockView>),
}

impl View for MessageContent {
    type V = ContentView;

    open spec fn view(&self) -> ContentView {
        match self {
            MessageContent::Text(t) => ContentView::Text(t@),
            MessageContent::Blocks(b) => ContentView::Blocks(blocks_view(b@)),
        }
    }
}

/// The contents of an `ApiMessage`.
pub struct MessageView {
    pub role: Seq<char>,
    pub content: ContentView,
}

impl View for ApiMessage {
    type V = MessageView;

    open spec fn view(&self) -> MessageView {
        MessageView { role: self.role@, content: self.content@ }
    }
}

/// The contents of a `HistoryMessage`.
pub struct HistoryView {
    pub role: Seq<char>,
    pub content: Seq<char>,
}

impl View for HistoryMessage {
    type V = HistoryView;

    open spec fn view(&self) -> HistoryView {
        HistoryView { role: self.role@, content: self.content@ }
    }
}

/// The contents of a list of stored messages.
pub open spec fn history_view(h: Seq<HistoryMessage>) -> Seq<HistoryView> {
    h.map_values(|m: HistoryMessage| m@)
}

/// The contents of a list of stored messages are, one for one, the role and
/// the text of each message.
pub proof fn history_view_keeps_each_message(h: Seq<HistoryMessage>)
    ensures
        history_view(h).len() == h.len(),
        forall|i: int|
            0 <= i < h.len() ==> #[trigger] history_view(h)[i] == (HistoryView {
                role: h[i].role@,
                content: h[i].content@,
            }),
{
}

/// The contents of a `FileRef`.
pub struct FileRefView {
    pub id: Seq<char>,
    pub title: Option<Seq<char>>,
}

impl View for FileRef {
    type V = FileRefView;

    open spec fn view(&self) -> FileRefView {
        FileRefView { id: self.id@, title: opt_text(self.title) }
    }
}

/// The contents of a list of file references.
pub open spec fn files_view(f: Seq<FileRef>) -> Seq<FileRefView> {
    f.map_values(|r: FileRef| r@)
}

/// The contents of a list of file references are, one for one, the id and
/// the title of each reference.
pub proof fn files_view_keeps_each_file(f: Seq<FileRef>)
    ensures
        files_view(f).len() == f.len(),
        forall|i: int|
            0 <= i < f.len() ==> #[trigger] files_view(f)[i] == (FileRefView {
                id: f[i].id@,
                title: match f[i].title {
                    Some(t) => Some(t@),
                    None => None,
                },
            }),
{
}

/// A copy of a stored message.
pub fn copy_history_message(m: &HistoryMessage) -> (r: HistoryMessage)
    ensures
        r@ == m@,
{
    HistoryMessage { role: m.role.clone(), content: m.content.clone() }
}

/// A copy of a file reference.
pub fn copy_file_ref(f: &FileRef) -> (r: FileRef)
    ensures
        r@ == f@,
{
    FileRef {
        id: f.id.clone(),
        title: match &f.title {
            Some(t) => Some(t.clone()),
            None => None,
        },
    }
}

} // verus!

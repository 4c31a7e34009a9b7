//! Shaping the messages of a model request and reading the reply.

use vstd::prelude::*;
use vstd::string::*;

use crate::claude::types::{
    blocks_view, ApiMessage, BlockView, ClaudeResponse, ContentBlock, ContentView, HistoryMessage,
    MessageContent, MessageView,
};
use crate::text::{decimal, text_eq};

verus! {

/// Whether `i` is the first message of `history` written by the user.
pub open spec fn is_first_user_message(history: Seq<HistoryMessage>, i: int) -> bool {
    &&& 0 <= i < history.len()
    &&& history[i].role@ == "user"@
    &&& forall|j: int| 0 <= j < i ==> history[j].role@ != "user"@
}

/// The request message made from the `i`-th stored message: the first user
/// message carries the context blocks followed by its text (when there are
/// context blocks); every other message is its role and its text.
pub open spec fn api_message_for(history: Seq<HistoryMessage>, blocks: Seq<BlockView>, i: int) -> MessageView {
    if blocks.len() > 0 && is_first_user_message(history, i) {
        MessageView {
            role: "user"@,
            content: ContentView::Blocks(blocks.push(BlockView::Text(history[i].content@))),
        }
    } else {
        MessageView { role: history[i].role@, content: ContentView::Text(history[i].content@) }
    }
}

/// Turns the stored conversation into request messages, attaching the
/// context documents to the first user message.
pub fn build_api_messages(history: &[HistoryMessage], context_blocks: Vec<ContentBlock>) -> (r: Vec<
    ApiMessage,
>)
    ensures
        r@.len() == history@.len(),
        forall|i: int|
            0 <= i < history@.len() ==> #[trigger] r@[i]@ == api_message_for(
                history@,
                blocks_view(context_blocks@),
                i,
            ),
{
    let ghost blocks = blocks_view(context_blocks@);
    let mut pending: Option<Vec<ContentBlock>> = if context_blocks.len() > 0 {
        Some(context_blocks)
    } else {
        None
    };
    let mut out: Vec<ApiMessage> = Vec::new();
    let mut i: usize = 0;
    while i < history.len()
        invariant
            0 <= i <= history@.len(),
            out@.len() == i,
            pending is Some <==> (blocks.len() > 0 && forall|j: int|
                0 <= j < i ==> history@[j].role@ != "user"@),
            pending matches Some(b) ==> blocks_view(b@) == blocks,
            forall|k: int| 0 <= k < i ==> #[trigger] out@[k]@ == api_message_for(history@, blocks, k),
        decreases history@.len() - i,
    {
        let msg = &history[i];
        let is_user = text_eq(msg.role.as_str(), "user");
        if is_user && pending.is_some() {
            let taken = pending;
            pending = None;
            let mut b = taken.unwrap();
            let ghost before = b@;
            b.push(ContentBlock::Text { text: msg.content.clone() });
            assert(blocks_view(b@) =~= blocks_view(before).push(BlockView::Text(msg.content@)));
            out.push(ApiMessage { role: "user".to_owned(), content: MessageContent::Blocks(b) });
            assert(is_first_user_message(history@, i as int));
        } else {
            out.push(
                ApiMessage { role: msg.role.clone(), content: MessageContent::Text(msg.content.clone()) },
            );
            assert(!(blocks.len() > 0 && is_first_user_message(history@, i as int)));
        }
        i = i + 1;
    }
    out
}


/// Every request message keeps the role of the stored message it comes from,
/// and the request has one message per stored message.
pub proof fn roles_are_kept(history: Seq<HistoryMessage>, blocks: Seq<BlockView>, i: int)
    requires
        0 <= i < history.len(),
    ensures
        api_message_for(history, blocks, i).role == history[i].role@,
{
}

/// Every request message carries the text of its stored message: as plain
/// text, or, for the message that takes the context documents, as a last text
/// block after the documents, which come first and unchanged.
pub proof fn texts_are_kept(history: Seq<HistoryMessage>, blocks: Seq<BlockView>, i: int)
    requires
        0 <= i < history.len(),
    ensures
        api_message_for(history, blocks, i).content matches ContentView::Text(t) ==> t == history[i].content@,
        api_message_for(history, blocks, i).content matches ContentView::Blocks(bs) ==> {
            &&& bs.len() == blocks.len() + 1
            &&& bs.subrange(0, blocks.len() as int) == blocks
            &&& bs.last() == BlockView::Text(history[i].content@)
        },
        blocks.len() == 0 ==> api_message_for(history, blocks, i).content == ContentView::Text(
            history[i].content@,
        ),
        history[i].role@ != "user"@ ==> api_message_for(history, blocks, i).content == ContentView::Text(
            history[i].content@,
        ),
{
    if api_message_for(history, blocks, i).content is Blocks {
        assert(blocks.push(BlockView::Text(history[i].content@)).subrange(0, blocks.len() as int) =~= blocks);
    }
}

/// The context documents go into at most one request message.
pub proof fn context_attached_at_most_once(history: Seq<HistoryMessage>, blocks: Seq<BlockView>, i: int, j: int)
    requires
        0 <= i < history.len(),
        0 <= j < history.len(),
        api_message_for(history, blocks, i).content is Blocks,
        api_message_for(history, blocks, j).content is Blocks,
    ensures
        i == j,
{
}

/// When there are context documents and the user has written at all, the
/// documents go into the first user message, which comes no later than any
/// other user message.
pub proof fn context_attached_when_user_speaks(history: Seq<HistoryMessage>, blocks: Seq<BlockView>, k: int)
    requires
        blocks.len() > 0,
        0 <= k < history.len(),
        history[k].role@ == "user"@,
    ensures
        exists|i: int|
            0 <= i <= k && #[trigger] api_message_for(history, blocks, i) == (MessageView {
                role: "user"@,
                content: ContentView::Blocks(blocks.push(BlockView::Text(history[i].content@))),
            }),
    decreases k,
{
    if forall|j: int| 0 <= j < k ==> history[j].role@ != "user"@ {
        assert(is_first_user_message(history, k));
        assert(api_message_for(history, blocks, k) == (MessageView {
            role: "user"@,
            content: ContentView::Blocks(blocks.push(BlockView::Text(history[k].content@))),
        }));
    } else {
        let j = choose|j: int| 0 <= j < k && history[j].role@ == "user"@;
        context_attached_when_user_speaks(history, blocks, j);
    }
}

/// What `http::StatusCode` shows after the number: the canonical reason
/// phrase of the code, or `<unknown status code>` when it has none.
pub uninterp spec fn http_reason_phrase(code: u16) -> Seq<char>;

/// `StatusCode::from_u16` and `StatusCode`'s `Display`: trusted to give the
/// code in decimal, a space, then the reason phrase, as `Display` writes it;
/// the table of reason phrases is left to the name.
#[verifier::external_body]
pub(crate) fn status_text(code: u16) -> (r: String)
    requires
        100 <= code <= 999,
    ensures
        r@ == decimal(code as nat) + seq![' '] + http_reason_phrase(code),
{
    reqwest::StatusCode::from_u16(code).unwrap().to_string()
}

/// Whether an HTTP status code means success (200 to 299), as
/// `StatusCode::is_success` says.
pub fn status_is_success(code: u16) -> (r: bool)
    ensures
        r == (200 <= code < 300),
{
    200 <= code && code < 300
}

/// The view of an optional string slice.
pub open spec fn opt_str(o: Option<&str>) -> Option<Seq<char>> {
    match o {
        Some(s) => Some(s@),
        None => None,
    }
}

/// In debug mode, the request as JSON after a blank line (or a note that it
/// could not be serialized); nothing otherwise.
pub open spec fn request_dump(request_json: Option<Seq<char>>, debug: bool) -> Seq<char> {
    if debug {
        "\n\nRequest sent:\n"@ + match request_json {
            Some(j) => j,
            None => "Could not serialize request"@,
        }
    } else {
        Seq::empty()
    }
}

fn append_request_dump(out: &mut String, request_json: Option<&str>, debug: bool)
    ensures
        final(out)@ == old(out)@ + request_dump(opt_str(request_json), debug),
{
    if debug {
        out.append("\n\nRequest sent:\n");
        match request_json {
            Some(j) => out.append(j),
            None => out.append("Could not serialize request"),
        }
    } else {
        assert(out@ =~= out@ + Seq::<char>::empty());
    }
}

/// The text of a failure: `prefix: error`, then the request dump.
pub open spec fn error_text(prefix: Seq<char>, error: Seq<char>, request_json: Option<Seq<char>>, debug: bool) -> Seq<char> {
    prefix + ": "@ + error + request_dump(request_json, debug)
}

/// Describes a failure to reach the API or to read its reply; in debug mode
/// the request that was sent follows (`request_json` is the request as
/// pretty-printed JSON, `None` when it could not be serialized).
pub fn format_error(prefix: &str, error: &str, request_json: Option<&str>, debug: bool) -> (r: String)
    ensures
        r@ == error_text(prefix@, error@, opt_str(request_json), debug),
{
    let mut out = prefix.to_owned();
    out.append(": ");
    out.append(error);
    append_request_dump(&mut out, request_json, debug);
    out
}

/// The text of an error status: `<service> API error (<status>): <body>`,
/// then the request dump.
pub open spec fn api_error_text(service: Seq<char>, status: u16, body: Seq<char>, request_json: Option<Seq<char>>, debug: bool) -> Seq<char> {
    service + " API error ("@ + decimal(status as nat) + seq![' '] + http_reason_phrase(status) + "): "@ + body
        + request_dump(request_json, debug)
}

/// Describes an error status returned by the API of `service`, with the body
/// of the reply.
pub fn format_api_error(service: &str, status: u16, body: &str, request_json: Option<&str>, debug: bool) -> (r: String)
    requires
        100 <= status <= 999,
    ensures
        r@ == api_error_text(service@, status, body@, opt_str(request_json), debug),
{
    let mut out = service.to_owned();
    out.append(" API error (");
    let st = status_text(status);
    out.append(st.as_str());
    out.append("): ");
    out.append(body);
    append_request_dump(&mut out, request_json, debug);
    out
}

/// What came back from a request to the messages API.
#[derive(Debug)]
pub enum ClaudeReply {
    /// The request could not be sent; the error.
    Unreachable(String),
    /// The API answered with a status other than success; the status, and the
    /// body when it could be read.
    Rejected { status: u16, body: Option<String> },
    /// A success status whose body is not a reply; the error.
    Undecodable(String),
    /// A success status and the reply.
    Decoded(ClaudeResponse),
}

/// Whether the status of a reply is one that `StatusCode` can hold.
pub open spec fn reply_status_ok(reply: ClaudeReply) -> bool {
    reply matches ClaudeReply::Rejected { status, .. } ==> 100 <= status <= 999
}

/// The answer text, or the error text shown to the user instead.
pub open spec fn reply_outcome(reply: ClaudeReply, service: Seq<char>, request_json: Option<Seq<char>>, debug: bool) -> Result<Seq<char>, Seq<char>> {
    match reply {
        ClaudeReply::Unreachable(e) => Err(error_text("Failed to reach "@ + service + " API"@, e@, request_json, debug)),
        ClaudeReply::Rejected { status, body } => Err(api_error_text(
            service,
            status,
            match body {
                Some(b) => b@,
                None => "Unknown error"@,
            },
            request_json,
            debug,
        )),
        ClaudeReply::Undecodable(e) => Err(error_text("Failed to parse "@ + service + " response"@, e@, request_json, debug)),
        ClaudeReply::Decoded(resp) => if resp.content@.len() > 0 {
            Ok(resp.content@[0].text@)
        } else {
            Err("No response content"@)
        },
    }
}

/// The view of a text-or-error result.
pub open spec fn result_text(r: Result<String, String>) -> Result<Seq<char>, Seq<char>> {
    match r {
        Ok(t) => Ok(t@),
        Err(e) => Err(e@),
    }
}

/// Reads the outcome of a request to the messages API of `service`: the text
/// of the first content block of a reply, or the message that explains the
/// failure.
pub fn interpret_claude_reply(reply: &ClaudeReply, service: &str, request_json: Option<&str>, debug: bool) -> (r: Result<String, String>)
    requires
        reply_status_ok(*reply),
    ensures
        result_text(r) == reply_outcome(*reply, service@, opt_str(request_json), debug),
{
    match reply {
        ClaudeReply::Unreachable(e) => {
            let mut prefix = "Failed to reach ".to_owned();
            prefix.append(service);
            prefix.append(" API");
            Err(format_error(prefix.as_str(), e.as_str(), request_json, debug))
        },
        ClaudeReply::Rejected { status, body } => {
            let body_text = match body {
                Some(b) => b.as_str(),
                None => "Unknown error",
            };
            Err(format_api_error(service, *status, body_text, request_json, debug))
        },
        ClaudeReply::Undecodable(e) => {
            let mut prefix = "Failed to parse ".to_owned();
            prefix.append(service);
            prefix.append(" response");
            Err(format_error(prefix.as_str(), e.as_str(), request_json, debug))
        },
        ClaudeReply::Decoded(resp) => if resp.content.len() > 0 {
            Ok(resp.content[0].text.clone())
        } else {
            Err("No response content".to_owned())
        },
    }
}

} // verus!

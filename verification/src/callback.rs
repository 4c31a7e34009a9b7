//! The hand-off from the interactions endpoint to the background callback
//! handler, and the callback handler's own decisions.

use vstd::prelude::*;

use crate::claude::history::{cap_history, capped, MAX_HISTORY_MESSAGES};
use crate::claude::types::{history_view, ApiMessage, ClaudeRequest, HistoryMessage, HistoryView};
use crate::text::{errors_then_text, prepend_errors, text_eq, views};

verus! {

/// What the callback handler needs to answer one command.
#[derive(Debug)]
pub struct CallbackArgs {
    pub app_id: String,
    pub token: String,
    pub user_id: String,
    pub display_name: String,
    pub channel_id: String,
    pub text: String,
}

/// The contents of `CallbackArgs`.
pub struct CallbackArgsView {
    pub app_id: Seq<char>,
    pub token: Seq<char>,
    pub user_id: Seq<char>,
    pub display_name: Seq<char>,
    pub channel_id: Seq<char>,
    pub text: Seq<char>,
}

impl View for CallbackArgs {
    type V = CallbackArgsView;

    open spec fn view(&self) -> CallbackArgsView {
        CallbackArgsView {
            app_id: self.app_id@,
            token: self.token@,
            user_id: self.user_id@,
            display_name: self.display_name@,
            channel_id: self.channel_id@,
            text: self.text@,
        }
    }
}

/// The command-line arguments that carry `a`, after the program name.
pub open spec fn argv_of(a: CallbackArgsView) -> Seq<Seq<char>> {
    seq![a.app_id, a.token, a.user_id, a.display_name, a.channel_id, a.text]
}

/// What the callback handler reads from its command line (program name
/// first): nothing when fewer than five arguments follow the program name; the
/// sixth, the text, may be left out and is then empty.
pub open spec fn args_from_argv(argv: Seq<Seq<char>>) -> Option<CallbackArgsView> {
    if argv.len() < 6 {
        None
    } else {
        Some(CallbackArgsView {
            app_id: argv[1],
            token: argv[2],
            user_id: argv[3],
            display_name: argv[4],
            channel_id: argv[5],
            text: if argv.len() > 6 { argv[6] } else { Seq::empty() },
        })
    }
}

impl CallbackArgs {
    /// The arguments to start the callback handler with, in the order it reads
    /// them.
    pub fn to_argv(&self) -> (r: Vec<String>)
        ensures
            views(r@) == argv_of(self@),
    {
        let mut r = Vec::new();
        r.push(self.app_id.clone());
        r.push(self.token.clone());
        r.push(self.user_id.clone());
        r.push(self.display_name.clone());
        r.push(self.channel_id.clone());
        r.push(self.text.clone());
        assert(views(r@) =~= argv_of(self@));
        r
    }
}

/// Reads the callback handler's command line (program name first).
pub fn parse_callback_args(args: &[String]) -> (r: Option<CallbackArgs>)
    ensures
        match r {
            Some(a) => args_from_argv(views(args@)) == Some(a@),
            None => args_from_argv(views(args@)) is None,
        },
{
    if args.len() < 6 {
        return None;
    }
    let text = if args.len() > 6 {
        args[6].clone()
    } else {
        String::new()
    };
    let a = CallbackArgs {
        app_id: args[1].clone(),
        token: args[2].clone(),
        user_id: args[3].clone(),
        display_name: args[4].clone(),
        channel_id: args[5].clone(),
        text,
    };
    assert(args_from_argv(views(args@)) =~= Some(a@));
    Some(a)
}

/// What the endpoint passes on is what the callback handler reads back,
/// whatever the program name.
pub proof fn argv_round_trip(a: CallbackArgsView, program: Seq<char>)
    ensures
        args_from_argv(seq![program] + argv_of(a)) == Some(a),
{
    let argv = seq![program] + argv_of(a);
    assert(argv.len() == 7);
    assert(argv[1] == a.app_id);
    assert(argv[6] == a.text);
}


/// The most tokens an answer may have.
pub const MAX_TOKENS: u32 = 1024;

/// The system prompt: who Strive is and what the user is called, followed,
/// after a blank line, by the extension when there is one.
pub open spec fn system_prompt_text(nickname: Seq<char>, extension: Seq<char>) -> Seq<char> {
    let base = "You are Strive, a helpful AI assistant of the Morlencir Empire. The user is known as "@
        + nickname + "."@;
    if extension.len() == 0 {
        base
    } else {
        base + "\n\n"@ + extension
    }
}

/// Builds the system prompt for a user.
pub fn system_prompt(nickname: &str, extension: &str) -> (r: String)
    ensures
        r@ == system_prompt_text(nickname@, extension@),
{
    let mut p = "You are Strive, a helpful AI assistant of the Morlencir Empire. The user is known as ".to_owned();
    p.append(nickname);
    p.append(".");
    if !extension.is_empty() {
        p.append("\n\n");
        p.append(extension);
    }
    p
}

/// Whether the value of the debug setting turns debug output on: only `1`
/// and `true` do; an unset setting does not.
pub fn is_debug_setting(value: Option<&str>) -> (r: bool)
    ensures
        r == match value {
            Some(v) => v@ == "1"@ || v@ == "true"@,
            None => false,
        },
{
    match value {
        Some(v) => text_eq(v, "1") || text_eq(v, "true"),
        None => false,
    }
}

/// The request for a conversation, to the model `model`.
pub fn build_claude_request(model: &str, system: String, messages: Vec<ApiMessage>) -> (r: ClaudeRequest)
    ensures
        r.model@ == model@,
        r.max_tokens == MAX_TOKENS,
        r.system == system,
        r.messages == messages,
{
    ClaudeRequest { model: model.to_owned(), max_tokens: MAX_TOKENS, system, messages }
}

/// A stored message keeps the role and the text it is made of.
pub proof fn message_view_keeps_role_and_text(role: Seq<char>, content: Seq<char>)
    ensures
        message_view(role, content).role == role,
        message_view(role, content).content == content,
{
}

/// A stored message of the given role.
pub open spec fn message_view(role: Seq<char>, content: Seq<char>) -> HistoryView {
    HistoryView { role, content }
}

/// Adds what the user just wrote to the end of the conversation.
pub fn with_user_message(history: Vec<HistoryMessage>, text: &str) -> (r: Vec<HistoryMessage>)
    ensures
        history_view(r@) == history_view(history@).push(message_view("user"@, text@)),
        r@.len() == history@.len() + 1,
        r@[history@.len() as int].role@ == "user"@,
        r@[history@.len() as int].content@ == text@,
        forall|i: int|
            0 <= i < history@.len() ==> #[trigger] r@[i].role@ == history@[i].role@ && r@[i].content@
                == history@[i].content@,
{
    let mut h = history;
    let ghost before = h@;
    h.push(HistoryMessage { role: "user".to_owned(), content: text.to_owned() });
    assert(history_view(h@) =~= history_view(before).push(message_view("user"@, text@)));
    h
}

/// What the callback handler does once the API has answered.
#[derive(Debug)]
pub struct CallbackOutcome {
    /// The conversation to store, when there is a new answer to store.
    pub history_to_save: Option<Vec<HistoryMessage>>,
    /// The text that replaces the deferred reply on Discord.
    pub discord_text: String,
}

/// Finishes a command. On an answer, the answer is added to the conversation,
/// the conversation is cut to its last `MAX_HISTORY_MESSAGES` messages and
/// stored, and the answer is posted; on a failure, nothing is stored and the
/// error is posted. Debug notices go first in either case.
pub fn conclude_callback(history: Vec<HistoryMessage>, notices: &[String], answer: Result<String, String>) -> (r: CallbackOutcome)
    ensures
        match answer {
            Ok(t) => {
                &&& r.history_to_save matches Some(h) && history_view(h@) == capped(
                    history_view(history@).push(message_view("assistant"@, t@)),
                )
                &&& r.history_to_save matches Some(h) && h@.len() > 0 && h@.len() <= MAX_HISTORY_MESSAGES
                    && h@.last().role@ == "assistant"@ && h@.last().content@ == t@
                &&& r.discord_text@ == errors_then_text(views(notices@), t@)
            },
            Err(e) => {
                &&& r.history_to_save is None
                &&& r.discord_text@ == errors_then_text(views(notices@), e@)
            },
        },
{
    match answer {
        Ok(text) => {
            let discord_text = prepend_errors(notices, text.as_str());
            let mut h = history;
            let ghost before = h@;
            h.push(HistoryMessage { role: "assistant".to_owned(), content: text });
            assert(history_view(h@) =~= history_view(before).push(message_view("assistant"@, text@)));
            let ghost full = history_view(before);
            let h = cap_history(h);
            proof {
                stored_history_ends_with_answer(full, message_view("assistant"@, text@));
                crate::claude::types::history_view_keeps_each_message(h@);
                assert(history_view(h@)[h@.len() - 1] == message_view("assistant"@, text@));
            }
            CallbackOutcome { history_to_save: Some(h), discord_text }
        },
        Err(e) => CallbackOutcome { history_to_save: None, discord_text: prepend_errors(notices, e.as_str()) },
    }
}

/// After an answer is stored, the conversation holds at most
/// `MAX_HISTORY_MESSAGES` messages, ends with the answer, and is the most
/// recent part of the whole conversation: older messages are the ones dropped.
pub proof fn stored_history_ends_with_answer(history: Seq<HistoryView>, answer: HistoryView)
    ensures
        capped(history.push(answer)).len() <= MAX_HISTORY_MESSAGES,
        capped(history.push(answer)).last() == answer,
        forall|i: int|
            0 <= i < capped(history.push(answer)).len() ==> #[trigger] capped(history.push(answer))[i]
                == history.push(answer)[history.len() + 1 - capped(history.push(answer)).len() + i],
        history.len() + 1 <= MAX_HISTORY_MESSAGES ==> capped(history.push(answer)) == history.push(answer),
{
}

} // verus!

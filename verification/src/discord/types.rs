//! The parts of Discord's interaction objects that the bot reads and writes.

use vstd::prelude::*;

verus! {

/// An interaction sent by Discord to the interactions endpoint.
#[derive(Debug)]
pub struct Interaction {
    /// 1 for a ping, 2 for an application command.
    pub interaction_type: u8,
    pub token: String,
    pub id: String,
    pub application_id: String,
    pub data: Option<InteractionData>,
    /// Present when the command was used in a guild.
    pub member: Option<Member>,
    /// Present when the command was used in a direct message.
    pub user: Option<User>,
    pub channel_id: Option<String>,
}

/// A guild member.
#[derive(Debug)]
pub struct Member {
    pub user: Option<User>,
    pub nick: Option<String>,
}

/// A Discord user.
#[derive(Debug)]
pub struct User {
    pub id: String,
    pub username: Option<String>,
    pub global_name: Option<String>,
}

/// The command and its options.
#[derive(Debug)]
pub struct InteractionData {
    pub name: String,
    pub options: Option<Vec<CommandOption>>,
}

/// The value of a command option: Discord sends JSON, and the bot only reads
/// string values.
#[derive(Debug)]
pub enum OptionValue {
    /// A JSON string.
    Text(String),
    /// Any other JSON value.
    Other,
}

/// One option given to a command.
#[derive(Debug)]
pub struct CommandOption {
    pub name: String,
    pub value: OptionValue,
}

/// The answer to an interaction: 1 answers a ping, 5 defers the reply.
#[derive(Debug, Clone, Copy, PartialEq, Eq, Structural)]
pub struct InteractionResponse {
    pub response_type: u8,
}

/// The body of the webhook request that edits the deferred reply.
#[derive(Debug)]
pub struct WebhookMessage {
    pub content: String,
}

/// The view of an optional string.
pub open spec fn opt_text(o: Option<String>) -> Option<Seq<char>> {
    match o {
        Some(s) => Some(s@),
        None => None,
    }
}

} // verus!

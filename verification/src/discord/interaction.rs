//! What the interactions endpoint does with a verified interaction.

use vstd::prelude::*;

use crate::callback::{CallbackArgs, CallbackArgsView};
use crate::discord::types::{
    opt_text, CommandOption, Interaction, InteractionData, InteractionResponse, Member, OptionValue, User,
};
use crate::text::{decimal, decimal_text, text_eq};

verus! {

/// The user who ran the command: the guild member's user, else the
/// direct-message user.
pub open spec fn command_user(interaction: Interaction) -> Option<User> {
    match interaction.member {
        Some(m) => match m.user {
            Some(u) => Some(u),
            None => interaction.user,
        },
        None => interaction.user,
    }
}

/// The id of the user who ran the command, `"unknown"` when there is none.
pub open spec fn user_id_of(interaction: Interaction) -> Seq<char> {
    match command_user(interaction) {
        Some(u) => u.id@,
        None => "unknown"@,
    }
}

/// `a` when it is present, else `b`.
pub open spec fn or_else(a: Option<Seq<char>>, b: Option<Seq<char>>) -> Option<Seq<char>> {
    if a is Some { a } else { b }
}

/// The name to call the user by, first found of: the member's nickname, the
/// member's global name, the member's username, the direct-message user's
/// global name, the direct-message user's username; else `"someone"`.
pub open spec fn display_name_of(interaction: Interaction) -> Seq<char> {
    let (nick, member_user) = match interaction.member {
        Some(m) => (opt_text(m.nick), m.user),
        None => (None, None),
    };
    let member_global = match member_user {
        Some(u) => opt_text(u.global_name),
        None => None,
    };
    let member_username = match member_user {
        Some(u) => opt_text(u.username),
        None => None,
    };
    let dm_global = match interaction.user {
        Some(u) => opt_text(u.global_name),
        None => None,
    };
    let dm_username = match interaction.user {
        Some(u) => opt_text(u.username),
        None => None,
    };
    match or_else(nick, or_else(member_global, or_else(member_username, or_else(dm_global, dm_username)))) {
        Some(name) => name,
        None => "someone"@,
    }
}

/// The string value of the first option named `text`; empty when there is no
/// such option or its value is not a string.
pub open spec fn text_option(options: Seq<CommandOption>) -> Seq<char>
    decreases options.len(),
{
    if options.len() == 0 {
        Seq::empty()
    } else if options[0].name@ == "text"@ {
        match options[0].value {
            OptionValue::Text(s) => s@,
            OptionValue::Other => Seq::empty(),
        }
    } else {
        text_option(options.drop_first())
    }
}

/// The text the user typed after the command.
pub open spec fn command_text_of(data: InteractionData) -> Seq<char> {
    match data.options {
        Some(opts) => text_option(opts@),
        None => Seq::empty(),
    }
}

/// The channel of the interaction, `"unknown"` when there is none.
pub open spec fn channel_of(interaction: Interaction) -> Seq<char> {
    match interaction.channel_id {
        Some(c) => c@,
        None => "unknown"@,
    }
}

/// Who ran the command: the guild member's user id, else the direct-message
/// user's id, else `"unknown"`.
pub fn resolve_user_id(interaction: &Interaction) -> (r: &str)
    ensures
        r@ == user_id_of(*interaction),
{
    if let Some(m) = &interaction.member {
        if let Some(u) = &m.user {
            return u.id.as_str();
        }
    }
    match &interaction.user {
        Some(u) => u.id.as_str(),
        None => "unknown",
    }
}

/// The name Strive calls the user by (see `display_name_of` for the order).
pub fn resolve_display_name(interaction: &Interaction) -> (r: &str)
    ensures
        r@ == display_name_of(*interaction),
{
    if let Some(m) = &interaction.member {
        if let Some(n) = &m.nick {
            return n.as_str();
        }
        if let Some(u) = &m.user {
            if let Some(g) = &u.global_name {
                return g.as_str();
            }
            if let Some(n) = &u.username {
                return n.as_str();
            }
        }
    }
    if let Some(u) = &interaction.user {
        if let Some(g) = &u.global_name {
            return g.as_str();
        }
        if let Some(n) = &u.username {
            return n.as_str();
        }
    }
    "someone"
}

/// The text given in the `text` option of a command.
pub fn command_text(data: &InteractionData) -> (r: &str)
    ensures
        r@ == command_text_of(*data),
{
    match &data.options {
        None => {
            proof {
                                reveal_strlit("");
                                assert(""@ =~= Seq::<char>::empty());
                            }
            ""
        },
        Some(opts) => {
            assert(opts@.skip(0) =~= opts@);
            let mut i: usize = 0;
            while i < opts.len()
                invariant
                    0 <= i <= opts@.len(),
                    data.options == Some(*opts),
                    text_option(opts@) == text_option(opts@.skip(i as int)),
                decreases opts@.len() - i,
            {
                assert(opts@.skip(i as int)[0] == opts@[i as int]);
                if text_eq(opts[i].name.as_str(), "text") {
                    return match &opts[i].value {
                        OptionValue::Text(s) => s.as_str(),
                        OptionValue::Other => {
                            proof {
                                reveal_strlit("");
                                assert(""@ =~= Seq::<char>::empty());
                            }
                            ""
                        },
                    };
                }
                assert(opts@.skip(i as int).drop_first() =~= opts@.skip(i + 1));
                i = i + 1;
            }
            proof {
                                reveal_strlit("");
                                assert(""@ =~= Seq::<char>::empty());
                            }
            ""
        },
    }
}

/// Why an interaction was not handled.
#[derive(Debug, PartialEq, Eq)]
pub enum InteractionError {
    /// A command interaction without its command data.
    MissingData,
    /// A command other than `/strive`; its name.
    UnknownCommand(String),
    /// An interaction type other than ping and command.
    UnhandledType(u8),
}

/// The text that reports why an interaction was not handled.
pub open spec fn interaction_error_text(e: InteractionError) -> Seq<char> {
    match e {
        InteractionError::MissingData => "Missing interaction data"@,
        InteractionError::UnknownCommand(name) => "Unknown command: "@ + name@,
        InteractionError::UnhandledType(t) => "Unhandled interaction type: "@ + decimal(t as nat),
    }
}

impl InteractionError {
    /// The text that reports the error.
    pub fn message(&self) -> (r: String)
        ensures
            r@ == interaction_error_text(*self),
    {
        match self {
            InteractionError::MissingData => "Missing interaction data".to_owned(),
            InteractionError::UnknownCommand(name) => {
                let mut m = "Unknown command: ".to_owned();
                m.append(name.as_str());
                m
            },
            InteractionError::UnhandledType(t) => {
                let mut m = "Unhandled interaction type: ".to_owned();
                m.append(decimal_text(*t as u64).as_str());
                m
            },
        }
    }
}

/// What the endpoint does with an interaction.
pub enum Route {
    /// Answer a ping with a pong.
    Pong,
    /// Defer the reply, then start the callback handler with these arguments.
    Deferred(CallbackArgs),
}

/// The callback arguments for a `/strive` command, or why there are none.
pub open spec fn command_outcome(interaction: Interaction) -> Result<CallbackArgsView, InteractionError> {
    match interaction.data {
        None => Err(InteractionError::MissingData),
        Some(data) => if data.name@ != "strive"@ {
            Err(InteractionError::UnknownCommand(data.name))
        } else {
            Ok(CallbackArgsView {
                app_id: interaction.application_id@,
                token: interaction.token@,
                user_id: user_id_of(interaction),
                display_name: display_name_of(interaction),
                channel_id: channel_of(interaction),
                text: command_text_of(data),
            })
        },
    }
}


/// Handles a `/strive` command: the arguments for the callback handler, taken
/// from the interaction, or why the command is refused.
pub fn handle_command(interaction: &Interaction) -> (r: Result<CallbackArgs, InteractionError>)
    ensures
        match r {
            Ok(a) => command_outcome(*interaction) == Ok::<CallbackArgsView, InteractionError>(a@),
            Err(e) => command_outcome(*interaction) == Err::<CallbackArgsView, InteractionError>(e),
        },
{
    let data = match &interaction.data {
        Some(d) => d,
        None => return Err(InteractionError::MissingData),
    };
    if !text_eq(data.name.as_str(), "strive") {
        return Err(InteractionError::UnknownCommand(data.name.clone()));
    }
    let channel_id = match &interaction.channel_id {
        Some(c) => c.clone(),
        None => "unknown".to_owned(),
    };
    let a = CallbackArgs {
        app_id: interaction.application_id.clone(),
        token: interaction.token.clone(),
        user_id: resolve_user_id(interaction).to_owned(),
        display_name: resolve_display_name(interaction).to_owned(),
        channel_id,
        text: command_text(data).to_owned(),
    };
    assert(command_outcome(*interaction) =~= Ok::<CallbackArgsView, InteractionError>(a@));
    Ok(a)
}

/// Whether the guild member, if any, gives no name at all: no nickname, and no
/// user or a user with neither a global name nor a username.
pub open spec fn member_gives_no_name(interaction: Interaction) -> bool {
    match interaction.member {
        None => true,
        Some(m) => m.nick is None && match m.user {
            None => true,
            Some(u) => u.global_name is None && u.username is None,
        },
    }
}

/// A `/strive` command is handed on with the interaction's application id,
/// token and channel (else `unknown`), and with the text of its `text` option.
pub proof fn command_hands_on_the_interaction(interaction: Interaction, data: InteractionData)
    requires
        interaction.data == Some(data),
        data.name@ == "strive"@,
    ensures
        command_outcome(interaction) is Ok,
        command_outcome(interaction)->Ok_0.app_id == interaction.application_id@,
        command_outcome(interaction)->Ok_0.token == interaction.token@,
        command_outcome(interaction)->Ok_0.text == text_option(
            match data.options {
                Some(o) => o@,
                None => Seq::empty(),
            },
        ),
        command_outcome(interaction)->Ok_0.channel_id == match interaction.channel_id {
            Some(c) => c@,
            None => "unknown"@,
        },
{
}

/// The user handed on is the guild member's user when there is one, else
/// the direct-message user, else `unknown`.
pub proof fn command_user_is_member_then_dm_user(
    interaction: Interaction,
    data: InteractionData,
    member: Member,
    user: User,
)
    requires
        interaction.data == Some(data),
        data.name@ == "strive"@,
    ensures
        interaction.member == Some(member) && member.user == Some(user)
            ==> command_outcome(interaction)->Ok_0.user_id == user.id@,
        interaction.member == Some(member) && member.user is None && interaction.user == Some(user)
            ==> command_outcome(interaction)->Ok_0.user_id == user.id@,
        interaction.member is None && interaction.user == Some(user)
            ==> command_outcome(interaction)->Ok_0.user_id == user.id@,
        (interaction.member is None || interaction.member == Some(member) && member.user is None)
            && interaction.user is None ==> command_outcome(interaction)->Ok_0.user_id == "unknown"@,
{
}

/// The display name handed on comes from the guild member when the member
/// gives one: the nickname, else the member's global name, else the member's
/// username.
pub proof fn command_name_from_member(
    interaction: Interaction,
    data: InteractionData,
    member: Member,
    user: User,
    name: String,
)
    requires
        interaction.data == Some(data),
        data.name@ == "strive"@,
        interaction.member == Some(member),
    ensures
        member.nick == Some(name) ==> command_outcome(interaction)->Ok_0.display_name == name@,
        member.nick is None && member.user == Some(user) && user.global_name == Some(name)
            ==> command_outcome(interaction)->Ok_0.display_name == name@,
        member.nick is None && member.user == Some(user) && user.global_name is None
            && user.username == Some(name) ==> command_outcome(interaction)->Ok_0.display_name == name@,
{
}

/// When the guild member gives no name (or there is no member, as in a
/// direct message), the display name handed on is the direct-message user's
/// global name, else that user's username, else `someone`.
pub proof fn command_name_from_dm_user(
    interaction: Interaction,
    data: InteractionData,
    user: User,
    name: String,
)
    requires
        interaction.data == Some(data),
        data.name@ == "strive"@,
        member_gives_no_name(interaction),
    ensures
        interaction.user == Some(user) && user.global_name == Some(name)
            ==> command_outcome(interaction)->Ok_0.display_name == name@,
        interaction.user == Some(user) && user.global_name is None && user.username == Some(name)
            ==> command_outcome(interaction)->Ok_0.display_name == name@,
        interaction.user is None ==> command_outcome(interaction)->Ok_0.display_name == "someone"@,
        interaction.user == Some(user) && user.global_name is None && user.username is None
            ==> command_outcome(interaction)->Ok_0.display_name == "someone"@,
{
}

/// The text handed on is the value of the first option named `text` when it
/// is a string, and empty when that option holds another value or no option
/// is named `text`; options before it with other names are passed over.
pub proof fn text_option_is_first_text(options: Seq<CommandOption>, o: CommandOption, value: String)
    ensures
        text_option(Seq::empty()) == Seq::<char>::empty(),
        o.name@ == "text"@ && o.value == OptionValue::Text(value) ==> text_option(seq![o] + options)
            == value@,
        o.name@ == "text"@ && o.value is Other ==> text_option(seq![o] + options) == Seq::<char>::empty(),
        o.name@ != "text"@ ==> text_option(seq![o] + options) == text_option(options),
{
    assert((seq![o] + options)[0] == o);
    assert((seq![o] + options).drop_first() =~= options);
}

/// What the endpoint does with an interaction of each type.
pub open spec fn route_outcome(interaction: Interaction) -> Result<Option<CallbackArgsView>, InteractionError> {
    if interaction.interaction_type == 1 {
        Ok(None)
    } else if interaction.interaction_type == 2 {
        match command_outcome(interaction) {
            Ok(a) => Ok(Some(a)),
            Err(e) => Err(e),
        }
    } else {
        Err(InteractionError::UnhandledType(interaction.interaction_type))
    }
}

impl Route {
    /// The deferred-reply arguments, if any.
    pub open spec fn deferred(self) -> Option<CallbackArgsView> {
        match self {
            Route::Pong => None,
            Route::Deferred(a) => Some(a@),
        }
    }

    /// The immediate answer: a pong (type 1) or a deferred reply (type 5).
    pub fn response(&self) -> (r: InteractionResponse)
        ensures
            r.response_type == (if self is Pong { 1u8 } else { 5u8 }),
    {
        match self {
            Route::Pong => InteractionResponse { response_type: 1 },
            Route::Deferred(_) => InteractionResponse { response_type: 5 },
        }
    }
}

/// Routes a verified interaction: pings are answered with a pong, `/strive`
/// commands are deferred to the callback handler, anything else is refused.
pub fn route_interaction(interaction: &Interaction) -> (r: Result<Route, InteractionError>)
    ensures
        match r {
            Ok(route) => route_outcome(*interaction) == Ok::<Option<CallbackArgsView>, InteractionError>(route.deferred()),
            Err(e) => route_outcome(*interaction) == Err::<Option<CallbackArgsView>, InteractionError>(e),
        },
{
    if interaction.interaction_type == 1 {
        Ok(Route::Pong)
    } else if interaction.interaction_type == 2 {
        match handle_command(interaction) {
            Ok(a) => Ok(Route::Deferred(a)),
            Err(e) => Err(e),
        }
    } else {
        Err(InteractionError::UnhandledType(interaction.interaction_type))
    }
}

} // verus!

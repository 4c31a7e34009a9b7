//! The webhook request that replaces the deferred reply with the answer.

use vstd::prelude::*;
use vstd::string::*;

use crate::discord::types::WebhookMessage;
use crate::text::{first_chars, truncate_to_chars};

verus! {

/// The most characters Discord accepts in a message.
pub const MESSAGE_CHAR_LIMIT: usize = 2000;

/// The address of the deferred reply of an interaction.
pub open spec fn webhook_url_text(app_id: Seq<char>, token: Seq<char>) -> Seq<char> {
    "https://discord.com/api/v10/webhooks/"@ + app_id + "/"@ + token + "/messages/@original"@
}

/// The URL to `PATCH` to edit the deferred reply of an interaction.
pub fn webhook_url(app_id: &str, token: &str) -> (r: String)
    ensures
        r@ == webhook_url_text(app_id@, token@),
{
    let mut url = "https://discord.com/api/v10/webhooks/".to_owned();
    url.append(app_id);
    url.append("/");
    url.append(token);
    url.append("/messages/@original");
    url
}

/// The message that replaces the deferred reply: the text cut to Discord's
/// limit of 2000 characters.
pub fn webhook_message(text: &str) -> (r: WebhookMessage)
    ensures
        r.content@ == first_chars(text@, MESSAGE_CHAR_LIMIT as nat),
        r.content@.len() <= MESSAGE_CHAR_LIMIT,
{
    WebhookMessage { content: truncate_to_chars(text, MESSAGE_CHAR_LIMIT).to_owned() }
}

} // verus!

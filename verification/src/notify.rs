//! The notifier's decisions: reading the two required configuration
//! values, building the outbound notification request, and classifying the
//! endpoint's answer. The network call itself is the caller's.

use crate::timestamp::append_lit;
use vstd::prelude::*;
use vstd::string::*;

verus! {

/// A failure of the best-effort notification. Never fatal to the request
/// that triggered it.
#[derive(Debug)]
pub enum NotifyError {
    /// The bot credential is absent from the configuration.
    MissingBotToken,
    /// The destination chat identifier is absent from the configuration.
    MissingChatId,
    /// The endpoint answered with a status outside the success range; the
    /// detail is the response body, or a placeholder when unreadable.
    Api(String),
    /// The transport failed before any answer arrived.
    Transport(String),
}

/// The JSON payload of the outbound notification call.
pub struct TelegramMessage {
    pub chat_id: String,
    pub text: String,
    pub parse_mode: Option<String>,
}

/// A fully built outbound notification: the endpoint URL and the payload.
pub struct NotificationRequest {
    pub url: String,
    pub message: TelegramMessage,
}

/// What trimming leading and trailing whitespace from a string returns;
/// the exact whitespace set is Unicode's and is not restated here.
pub uninterp spec fn trim_of(s: Seq<char>) -> Seq<char>;

/// Relies on str::trim: returns the string with leading and trailing
/// whitespace removed, a function of the characters alone.
#[verifier::external_body]
fn trim_ends(s: &str) -> (r: String)
    ensures
        r@ == trim_of(s@),
{
    s.trim().to_owned()
}

/// The notification text for a persisted entry: the entry with leading and
/// trailing whitespace trimmed away (in particular its final newline).
pub fn notification_text(entry: &str) -> (r: String)
    ensures
        r@ == trim_of(entry@),
{
    trim_ends(entry)
}

/// The endpoint URL for a bot credential.
pub open spec fn spec_url(token: Seq<char>) -> Seq<char> {
    "https://api.telegram.org/bot"@ + token + "/sendMessage"@
}

/// The decorated notification text for a message: a bell marker, a bold
/// label, and the message fenced in a code block.
pub open spec fn spec_decorated(message: Seq<char>) -> Seq<char> {
    "\u{1F514} **Log Entry**\n```\n"@ + message + "\n```"@
}

/// Builds the outbound notification from the configuration and the message
/// text. Fails exactly when a required configuration value is absent — the
/// bot credential is checked first — and then attempts no further work.
pub fn build_notification(
    bot_token: &Option<String>,
    chat_id: &Option<String>,
    message: &str,
) -> (r: Result<NotificationRequest, NotifyError>)
    ensures
        bot_token is None ==> r == Err::<NotificationRequest, _>(NotifyError::MissingBotToken),
        bot_token is Some && chat_id is None ==> r == Err::<NotificationRequest, _>(
            NotifyError::MissingChatId,
        ),
        bot_token matches Some(t) ==> chat_id matches Some(c) ==> (r matches Ok(req) && {
            &&& req.url@ == spec_url(t@)
            &&& req.message.chat_id@ == c@
            &&& req.message.text@ == spec_decorated(message@)
            &&& (req.message.parse_mode matches Some(p) && p@ == "Markdown"@)
        }),
{
    let token: &String = match bot_token {
        Some(t) => t,
        None => {
            return Err(NotifyError::MissingBotToken);
        },
    };
    let chat: &String = match chat_id {
        Some(c) => c,
        None => {
            return Err(NotifyError::MissingChatId);
        },
    };
    let mut url = String::new();
    append_lit(&mut url, "https://api.telegram.org/bot");
    append_lit(&mut url, token.as_str());
    append_lit(&mut url, "/sendMessage");
    let mut text = String::new();
    append_lit(&mut text, "\u{1F514} **Log Entry**\n```\n");
    append_lit(&mut text, message);
    append_lit(&mut text, "\n```");
    proof {
        assert(url@ =~= spec_url(token@));
        assert(text@ =~= spec_decorated(message@));
    }
    Ok(
        NotificationRequest {
            url,
            message: TelegramMessage {
                chat_id: chat.clone(),
                text,
                parse_mode: Some(String::from_str("Markdown")),
            },
        },
    )
}

/// Builds the outbound notification for a persisted log entry: the entry
/// is trimmed, then decorated and addressed as `build_notification` does.
pub fn prepare_notification(
    bot_token: &Option<String>,
    chat_id: &Option<String>,
    entry: &str,
) -> (r: Result<NotificationRequest, NotifyError>)
    ensures
        bot_token is None ==> r == Err::<NotificationRequest, _>(NotifyError::MissingBotToken),
        bot_token is Some && chat_id is None ==> r == Err::<NotificationRequest, _>(
            NotifyError::MissingChatId,
        ),
        bot_token matches Some(t) ==> chat_id matches Some(c) ==> (r matches Ok(req) && {
            &&& req.url@ == spec_url(t@)
            &&& req.message.chat_id@ == c@
            &&& req.message.text@ == spec_decorated(trim_of(entry@))
            &&& (req.message.parse_mode matches Some(p) && p@ == "Markdown"@)
        }),
{
    let text = notification_text(entry);
    build_notification(bot_token, chat_id, text.as_str())
}

/// Classifies the endpoint's answer: success exactly when the status lies
/// in the success range, otherwise an error carrying the response body, or
/// the fixed placeholder where the body could not be read.
pub fn notify_outcome(status: u16, body: Option<String>) -> (r: Result<(), NotifyError>)
    ensures
        r is Ok <==> 200 <= status < 300,
        !(200 <= status < 300) ==> (r matches Err(NotifyError::Api(detail)) && {
            &&& body matches Some(b) ==> detail@ == b@
            &&& body is None ==> detail@ == "Unknown error"@
        }),
{
    if 200 <= status && status < 300 {
        Ok(())
    } else {
        match body {
            Some(b) => Err(NotifyError::Api(b)),
            None => Err(NotifyError::Api(String::from_str("Unknown error"))),
        }
    }
}

} // verus!

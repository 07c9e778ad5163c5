use vstd::prelude::*;
use crate::http::{is_success, success_status, trim_base_url, without_trailing_slashes};

verus! {

/// Failure of a message delivery.
#[derive(Clone, Debug)]
pub enum TelegramError {
    /// The request did not complete.
    Transport(String),
    /// The service answered with a status outside the success class.
    HttpStatus(u16),
}

/// What the messaging client needs to address the bot API.
#[derive(Clone, Debug)]
pub struct TelegramClient {
    pub bot_token: String,
    pub base_url: String,
}

/// The body of one message request.
#[derive(Clone, Debug)]
pub struct OutgoingMessage {
    pub chat_id: String,
    pub text: String,
    pub disable_web_page_preview: bool,
}

impl TelegramClient {
    pub fn new(bot_token: String, base_url: String) -> (r: TelegramClient)
        ensures
            r.bot_token == bot_token,
            r.base_url@ == without_trailing_slashes(base_url@),
    {
        let base_url = trim_base_url(base_url.as_str());
        TelegramClient { bot_token, base_url }
    }

    /// The endpoint that posts a message through the bot.
    pub open spec fn send_url_spec(&self) -> Seq<char> {
        self.base_url@ + "/bot"@ + self.bot_token@ + "/sendMessage"@
    }

    pub fn send_url(&self) -> (r: String)
        ensures
            r@ == self.send_url_spec(),
    {
        let mut r = self.base_url.clone();
        r.append("/bot");
        r.append(self.bot_token.as_str());
        r.append("/sendMessage");
        r
    }

    /// The request body that posts `text` to `chat_id` as plain text, without link previews.
    pub fn message(chat_id: &str, text: &str) -> (r: OutgoingMessage)
        ensures
            r.chat_id@ == chat_id@,
            r.text@ == text@,
            r.disable_web_page_preview,
    {
        OutgoingMessage { chat_id: chat_id.to_string(), text: text.to_string(), disable_web_page_preview: true }
    }

    /// Outcome of a delivery that got an answer with `status`.
    pub open spec fn response_outcome(status: u16) -> Result<(), TelegramError> {
        if success_status(status) {
            Ok(())
        } else {
            Err(TelegramError::HttpStatus(status))
        }
    }

    pub fn delivery_from_response(status: u16) -> (r: Result<(), TelegramError>)
        ensures
            r == Self::response_outcome(status),
    {
        if is_success(status) {
            Ok(())
        } else {
            Err(TelegramError::HttpStatus(status))
        }
    }
}

} // verus!

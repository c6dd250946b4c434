//! Notification targets and what is sent to them.

use vstd::prelude::*;

use crate::json::Json;

verus! {

/// A notification destination (per-monitor or node-level policy-alert channel).
#[derive(Debug, Clone, PartialEq)]
pub enum NotifyTarget {
    /// Generic JSON POST. Works with Slack and Discord incoming webhooks and any HTTP endpoint.
    Webhook { url: String },
    /// Direct Telegram Bot API send (`sendMessage`).
    Telegram { bot_token: String, chat_id: String },
    /// A specific Expo push token (in addition to globally-registered devices).
    ExpoPush { token: String },
    /// A single email recipient. The transport is a shared node resource, not stored here.
    Email { to: String },
}

/// Node-level alert delivery targets: the channels and the email recipients that policy alerts
/// deliver to.
#[derive(Debug, Clone)]
pub struct AlertDeliveryTargets {
    pub targets: Vec<NotifyTarget>,
    pub emails: Vec<String>,
}

impl Default for AlertDeliveryTargets {
    fn default() -> (r: AlertDeliveryTargets)
        ensures
            r.targets@.len() == 0,
            r.emails@.len() == 0,
    {
        AlertDeliveryTargets { targets: Vec::new(), emails: Vec::new() }
    }
}

// ---- answers to a send ----------------------------------------------------

/// A 2xx code.
pub open spec fn success(code: u16) -> bool {
    200 <= code < 300
}

/// What an HTTP endpoint answered: the code, and the text that shows it.
#[derive(Debug)]
pub struct HttpAnswer {
    pub code: u16,
    pub shown: String,
}

/// Whether a code is 2xx.
pub fn is_success(code: u16) -> (b: bool)
    ensures
        b == success(code),
{
    200 <= code && code < 300
}

/// What a send over a channel came to: fine only on a 2xx answer.
pub open spec fn send_outcome(
    channel: Seq<char>,
    answer: Result<(u16, Seq<char>), Seq<char>>,
) -> Result<(), Seq<char>> {
    match answer {
        Ok(got) => if success(got.0) {
            Ok(())
        } else {
            Err(channel + " returned HTTP "@ + got.1)
        },
        Err(e) => Err(channel + " send failed: "@ + e),
    }
}

/// The view of an answer to a send.
pub open spec fn answered(answer: Result<HttpAnswer, String>) -> Result<
    (u16, Seq<char>),
    Seq<char>,
> {
    match answer {
        Ok(got) => Ok((got.code, got.shown@)),
        Err(e) => Err(e@),
    }
}

fn judge_send(channel: &str, answer: Result<HttpAnswer, String>) -> (r: Result<(), String>)
    ensures
        crate::text::told(r) == send_outcome(channel@, answered(answer)),
{
    match answer {
        Ok(got) => if is_success(got.code) {
            Ok(())
        } else {
            Err(channel.to_string().concat(" returned HTTP ").concat(got.shown.as_str()))
        },
        Err(e) => Err(channel.to_string().concat(" send failed: ").concat(e.as_str())),
    }
}

/// What a plain-text send to a webhook came to.
pub fn send_webhook_text(answer: Result<HttpAnswer, String>) -> (r: Result<(), String>)
    ensures
        crate::text::told(r) == send_outcome("webhook"@, answered(answer)),
{
    judge_send("webhook", answer)
}

/// What a plain-text send over Telegram came to.
pub fn send_telegram_text(answer: Result<HttpAnswer, String>) -> (r: Result<(), String>)
    ensures
        crate::text::told(r) == send_outcome("telegram"@, answered(answer)),
{
    judge_send("telegram", answer)
}

/// A send is reported as fine exactly on a 2xx answer.
pub proof fn law_send_needs_a_success(
    channel: Seq<char>,
    answer: Result<(u16, Seq<char>), Seq<char>>,
)
    ensures
        send_outcome(channel, answer) is Ok <==> (answer matches Ok(got) && 200 <= got.0 < 300),
{
}

// ---- what is sent ---------------------------------------------------------

/// A message to a webhook: the same text for Slack and for Discord.
#[derive(Debug)]
pub struct WebhookMessage {
    pub text: String,
    pub content: String,
}

/// The message that carries a plain text to a webhook.
pub fn webhook_message(text: &str) -> (r: WebhookMessage)
    ensures
        r.text@ == text@,
        r.content@ == text@,
{
    WebhookMessage { text: text.to_string(), content: text.to_string() }
}

/// The text of an alert: its title, a line end, its message.
pub open spec fn alert_text(title: Seq<char>, message: Seq<char>) -> Seq<char> {
    title + "\n"@ + message
}

/// The message that carries an alert to a webhook.
pub fn webhook_alert(title: &str, message: &str) -> (r: WebhookMessage)
    ensures
        r.text@ == alert_text(title@, message@),
        r.content@ == alert_text(title@, message@),
{
    let text = title.to_string().concat("\n").concat(message);
    webhook_message(text.as_str())
}

/// The text that carries an alert over Telegram: the one of the alert behind a bell.
pub fn telegram_alert(title: &str, message: &str) -> (r: String)
    ensures
        r@ == "\u{1f514} "@ + alert_text(title@, message@),
{
    let text = title.to_string().concat("\n").concat(message);
    "\u{1f514} ".to_string().concat(text.as_str())
}

/// The Bot API address to which a Telegram message goes.
pub fn telegram_api(bot_token: &str) -> (r: String)
    ensures
        r@ == "https://api.telegram.org/bot"@ + bot_token@ + "/sendMessage"@,
{
    "https://api.telegram.org/bot".to_string().concat(bot_token).concat("/sendMessage")
}

/// One push message; the data rides through to the device.
#[derive(Debug)]
pub struct PushMessage<'a> {
    pub to: String,
    pub title: String,
    pub body: String,
    pub sound: &'static str,
    pub data: &'a Json,
}

/// What a push message says.
pub struct PushView {
    pub to: Seq<char>,
    pub title: Seq<char>,
    pub body: Seq<char>,
    pub sound: Seq<char>,
    pub data: Json,
}

impl<'a> View for PushMessage<'a> {
    type V = PushView;

    open spec fn view(&self) -> PushView {
        PushView {
            to: self.to@,
            title: self.title@,
            body: self.body@,
            sound: self.sound@,
            data: *self.data,
        }
    }
}

/// The push message for one device.
pub open spec fn push_for(
    token: Seq<char>,
    title: Seq<char>,
    body: Seq<char>,
    data: Json,
) -> PushView {
    PushView { to: token, title, body, sound: "default"@, data }
}

/// The messages of a push: one for each token, in their order, each with the same data; `None`
/// where there is no token, and then nothing is to be sent.
pub fn push_expo_message<'a>(
    tokens: &[String],
    title: &str,
    body: &str,
    data: &'a Json,
) -> (r: Option<Vec<PushMessage<'a>>>)
    ensures
        match r {
            Some(messages) => {
                &&& tokens@.len() > 0
                &&& messages@.len() == tokens@.len()
                &&& forall|i: int|
                    0 <= i < tokens@.len() ==> (#[trigger] messages@[i])@ == push_for(
                        tokens@[i]@,
                        title@,
                        body@,
                        *data,
                    )
            },
            None => tokens@.len() == 0,
        },
{
    if tokens.len() == 0 {
        return None;
    }
    let mut messages: Vec<PushMessage<'a>> = Vec::new();
    let mut i: usize = 0;
    while i < tokens.len()
        invariant
            i <= tokens@.len(),
            messages@.len() == i,
            forall|j: int|
                0 <= j < i ==> (#[trigger] messages@[j])@ == push_for(
                    tokens@[j]@,
                    title@,
                    body@,
                    *data,
                ),
        decreases tokens@.len() - i,
    {
        messages.push(
            PushMessage {
                to: tokens[i].clone(),
                title: title.to_string(),
                body: body.to_string(),
                sound: "default",
                data,
            },
        );
        i = i + 1;
    }
    Some(messages)
}

} // verus!

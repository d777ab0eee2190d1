//! What is sent to the classifier for an e-mail, and how its reply is read.

use vstd::prelude::*;
use crate::json::{
    json_get, json_index, json_str, json_text_value, opt_string_view, parse_json_text, JsonValue,
};
use crate::models::EmailMessage;
use crate::text::{truncate, truncated};

verus! {

/// The most characters of an e-mail body that go to the classifier.
pub const BODY_CHAR_LIMIT: usize = 12000;

/// The user message that describes an e-mail to the classifier.
pub open spec fn prompt_text(
    from: Seq<char>,
    subject: Seq<char>,
    snippet: Seq<char>,
    body: Seq<char>,
) -> Seq<char> {
    "From: "@ + from + "\nSubject: "@ + subject + "\nSnippet: "@ + snippet + "\nBody:\n"@
        + truncated(body, BODY_CHAR_LIMIT as nat)
}

/// The head of the user message, up to and including the line `Body:`.
pub open spec fn prompt_head(from: Seq<char>, subject: Seq<char>, snippet: Seq<char>) -> Seq<char> {
    "From: "@ + from + "\nSubject: "@ + subject + "\nSnippet: "@ + snippet + "\nBody:\n"@
}

/// What of the body reaches the classifier, for every e-mail: the message
/// is its head followed by the beginning of the body, exactly the first
/// `BODY_CHAR_LIMIT` characters of a longer body and the whole of a shorter
/// one.
pub proof fn lemma_prompt_keeps_body_start(
    from: Seq<char>,
    subject: Seq<char>,
    snippet: Seq<char>,
    body: Seq<char>,
)
    ensures
        ({
            let head = prompt_head(from, subject, snippet);
            let p = prompt_text(from, subject, snippet, body);
            let n = if body.len() <= BODY_CHAR_LIMIT {
                body.len() as int
            } else {
                BODY_CHAR_LIMIT as int
            };
            &&& p.len() == head.len() + n
            &&& forall|i: int| 0 <= i < head.len() ==> #[trigger] p[i] == head[i]
            &&& forall|i: int| 0 <= i < n ==> #[trigger] p[head.len() + i] == body[i]
        }),
{
    let head = prompt_head(from, subject, snippet);
    let p = prompt_text(from, subject, snippet, body);
    assert(p =~= head + truncated(body, BODY_CHAR_LIMIT as nat));
}

/// The user message for an e-mail: sender, subject, snippet, and the body cut
/// to `BODY_CHAR_LIMIT` characters.
pub fn classification_prompt(msg: &EmailMessage) -> (res: String)
    ensures
        res@ == prompt_text(msg.from_addr@, msg.subject@, msg.snippet@, msg.body_text@),
{
    let mut out = String::new();
    out.append("From: ");
    out.append(msg.from_addr.as_str());
    out.append("\nSubject: ");
    out.append(msg.subject.as_str());
    out.append("\nSnippet: ");
    out.append(msg.snippet.as_str());
    out.append("\nBody:\n");
    let body = truncate(msg.body_text.as_str(), BODY_CHAR_LIMIT);
    out.append(body.as_str());
    assert(out@ =~= prompt_text(msg.from_addr@, msg.subject@, msg.snippet@, msg.body_text@));
    out
}

/// The text of `choices[0].message.content` in a chat-completion reply.
pub open spec fn reply_content(v: JsonValue) -> Option<Seq<char>> {
    match json_get(v, "choices"@) {
        Some(c) => match json_index(c, 0) {
            Some(first) => match json_get(first, "message"@) {
                Some(m) => json_str(json_get(m, "content"@)),
                None => None,
            },
            None => None,
        },
        None => None,
    }
}

/// Reads `choices[0].message.content` from a chat-completion reply; nothing
/// where it is missing or not a string.
pub fn response_content(value: &JsonValue) -> (res: Option<String>)
    ensures
        opt_string_view(res) == reply_content(*value),
{
    let choices = match value.get("choices") {
        Some(c) => c,
        None => return None,
    };
    let first = match choices.element(0) {
        Some(f) => f,
        None => return None,
    };
    let message = match first.get("message") {
        Some(m) => m,
        None => return None,
    };
    match message.get("content") {
        Some(c) => match c.as_str() {
            Some(s) => Some(s.to_owned()),
            None => None,
        },
        None => None,
    }
}

/// Why a classifier reply carries no extraction text.
#[derive(Debug, Clone, Copy, PartialEq, Eq, Structural)]
pub enum ReplyError {
    /// The reply body is not JSON.
    NotJson,
    /// The reply has no string at `choices[0].message.content`.
    MissingContent,
}

/// Reads the extraction text out of a chat-completion reply body: the body
/// is decoded as JSON and `choices[0].message.content` is taken.
pub fn reply_body_content(body: &str) -> (res: Result<String, ReplyError>)
    ensures
        match json_text_value(body@) {
            None => res == Err::<String, ReplyError>(ReplyError::NotJson),
            Some(v) => match reply_content(v) {
                Some(c) => res matches Ok(s) && s@ == c,
                None => res == Err::<String, ReplyError>(ReplyError::MissingContent),
            },
        },
{
    match parse_json_text(body) {
        None => Err(ReplyError::NotJson),
        Some(v) => match response_content(&v) {
            Some(c) => Ok(c),
            None => Err(ReplyError::MissingContent),
        },
    }
}

} // verus!

//! What the bot's client decides by itself: whether it may start, and how a
//! measured latency is shown.

use crate::config::raw_view;
use vstd::prelude::*;
use vstd::string::*;

verus! {

/// Why the client cannot be started.
#[derive(Clone, Copy, Debug, PartialEq, Eq, Structural)]
pub enum StartError {
    /// No token is configured.
    NoToken,
    /// The configured token is not of the form of a token.
    InvalidToken,
}

/// Whether the text begins with the prefix under which a token is sent.
pub open spec fn has_bot_prefix(text: Seq<char>) -> bool {
    text.len() >= 4 && text[0] == 'B' && text[1] == 'o' && text[2] == 't' && text[3] == ' '
}

/// The text without any such prefix at its beginning.
pub open spec fn without_bot_prefix(text: Seq<char>) -> Seq<char>
    decreases text.len(),
{
    if has_bot_prefix(text) {
        without_bot_prefix(text.skip(4))
    } else {
        text
    }
}

/// Whether the text falls into exactly three parts at its periods, none of
/// them empty.
pub open spec fn three_parts(text: Seq<char>) -> bool {
    exists|i: int, j: int|
        0 < i && i + 1 < j && j + 1 < text.len() && #[trigger] text[i] == '.' && #[trigger] text[j]
            == '.' && forall|k: int|
            0 <= k < text.len() && k != i && k != j ==> #[trigger] text[k] != '.'
}

/// Whether a text has the form of a token: after any prefix, three parts
/// that periods separate, none of them empty.
pub open spec fn token_format_ok(token: Seq<char>) -> bool {
    three_parts(without_bot_prefix(token))
}

/// `serenity::utils::validate_token`: whether the text has the form of a
/// token. The function strips every leading `Bot `, splits the rest at the
/// periods, and accepts exactly three parts that are not empty.
#[verifier::external_body]
pub(crate) fn validate_token(token: &str) -> (ok: bool)
    ensures
        ok == token_format_ok(token@),
{
    serenity::utils::validate_token(token).is_ok()
}

impl StartError {
    /// The text with which the start is given up.
    pub open spec fn message_spec(self) -> Seq<char> {
        match self {
            StartError::NoToken => "No Token. Unable to Start Bot!"@,
            StartError::InvalidToken => "Invalid discord token!"@,
        }
    }

    /// The text with which the start is given up.
    pub fn message(&self) -> (text: &'static str)
        ensures
            text@ == self.message_spec(),
    {
        match self {
            StartError::NoToken => "No Token. Unable to Start Bot!",
            StartError::InvalidToken => "Invalid discord token!",
        }
    }
}

/// The token that the client is started with, given the raw setting: the
/// setting itself where it is present and has the form of a token.
pub open spec fn start_client_spec(raw: Option<Seq<char>>) -> Result<Seq<char>, StartError> {
    match raw {
        None => Err(StartError::NoToken),
        Some(token) => if token_format_ok(token) {
            Ok(token)
        } else {
            Err(StartError::InvalidToken)
        },
    }
}

/// Decides whether the client may be started, and with which token.
pub fn start_client(raw: Option<&str>) -> (token: Result<String, StartError>)
    ensures
        token is Ok == start_client_spec(raw_view(raw)) is Ok,
        token matches Ok(text) ==> Ok::<Seq<char>, StartError>(text@) == start_client_spec(
            raw_view(raw),
        ),
        token matches Err(error) ==> Err::<Seq<char>, StartError>(error) == start_client_spec(
            raw_view(raw),
        ),
{
    match raw {
        None => Err(StartError::NoToken),
        Some(token) => if validate_token(token) {
            Ok(String::from_str(token))
        } else {
            Err(StartError::InvalidToken)
        },
    }
}

/// A latency, split into the units in which it is shown.
#[derive(Clone, Copy, Debug, PartialEq, Eq, Structural)]
pub struct Latency {
    pub secs: u64,
    pub millis: u32,
    pub micros: u32,
    pub nanos: u32,
}

/// Splits a latency, given as whole seconds and the nanoseconds beyond
/// them, into seconds, milliseconds, microseconds and nanoseconds. The
/// three smaller parts add up to the nanoseconds given, and the last two
/// stay below a thousand.
pub fn split_latency(secs: u64, subsec_nanos: u32) -> (latency: Latency)
    ensures
        latency.secs == secs,
        latency.millis == subsec_nanos / 1_000_000,
        latency.micros == (subsec_nanos / 1_000) % 1_000,
        latency.nanos == subsec_nanos % 1_000,
        latency.millis * 1_000_000 + latency.micros * 1_000 + latency.nanos == subsec_nanos,
{
    let step: u32 = 1_000;
    let micros: u32 = subsec_nanos / step;
    let nanos: u32 = subsec_nanos - micros * step;
    let millis: u32 = micros / step;
    let micros: u32 = micros - millis * step;
    Latency { secs, millis, micros, nanos }
}

} // verus!

//! How a message that a user asks the bot to send is routed.

use vstd::prelude::*;

verus! {

/// What a user may ask for with a message.
#[derive(Clone, Copy, Debug, PartialEq, Eq, Structural, PartialOrd, Ord, Hash)]
pub enum MessageFlags {
    /// Answer the command, for all to see.
    Reply,
    /// Answer the command, for the user alone to see.
    Ephemral,
    /// Post a message of its own to the channel.
    NoReply,
    /// Replace the message with this identifier.
    Edit { id: u64 },
}

impl Default for MessageFlags {
    /// A message is an answer for all to see unless it says otherwise.
    fn default() -> (flags: Self)
        ensures
            flags == MessageFlags::Reply,
    {
        MessageFlags::Reply
    }
}

/// The way a message takes.
#[derive(Clone, Copy, Debug, PartialEq, Eq, Structural)]
pub enum Route {
    /// It is the answer to the command.
    Reply { ephemeral: bool },
    /// It is posted to the channel, and the command is acknowledged.
    Post,
    /// It replaces an earlier message, and the command is acknowledged.
    Edit { id: u64 },
}

/// The way that each flag asks for. Without a flag the message is an
/// answer for all to see.
pub open spec fn route_spec(flags: Option<MessageFlags>) -> Route {
    match flags {
        None => Route::Reply { ephemeral: false },
        Some(MessageFlags::Reply) => Route::Reply { ephemeral: false },
        Some(MessageFlags::Ephemral) => Route::Reply { ephemeral: true },
        Some(MessageFlags::NoReply) => Route::Post,
        Some(MessageFlags::Edit { id }) => Route::Edit { id },
    }
}

/// Decides the way of a message.
pub fn route(flags: Option<MessageFlags>) -> (way: Route)
    ensures
        way == route_spec(flags),
{
    match flags {
        None => Route::Reply { ephemeral: false },
        Some(MessageFlags::Reply) => Route::Reply { ephemeral: false },
        Some(MessageFlags::Ephemral) => Route::Reply { ephemeral: true },
        Some(MessageFlags::NoReply) => Route::Post,
        Some(MessageFlags::Edit { id }) => Route::Edit { id },
    }
}

/// Whether a message is for the eyes of the user alone.
pub fn is_ephemeral(flags: Option<MessageFlags>) -> (ephemeral: bool)
    ensures
        ephemeral == (flags == Some(MessageFlags::Ephemral)),
{
    match flags {
        Some(MessageFlags::Ephemral) => true,
        _ => false,
    }
}

/// The text with which a command is acknowledged that did not answer with
/// the message itself.
pub fn acknowledgement() -> (text: &'static str)
    ensures
        text@ == "Send new Message!"@,
{
    "Send new Message!"
}

/// The embeds of a message in the order in which they are sent: those that
/// replace the present ones first, then those that are added.
pub fn embeds_in_order<E>(replace: Vec<E>, add: Vec<E>) -> (embeds: Vec<E>)
    ensures
        embeds@ == replace@ + add@,
{
    let mut embeds = replace;
    let mut add = add;
    embeds.append(&mut add);
    embeds
}

} // verus!

//! The handle on the remote sink, and the place that holds the one handle
//! of a process.

use crate::config::Constants;
use crate::delivery::{classify, classify_spec, FailureKind, SinkError};
use vstd::prelude::*;
use vstd::string::*;

verus! {

/// The handle on the webhook that log output is forwarded to: the
/// credential, the webhook's identifier, and the description of the remote
/// channel as it was resolved when the handle was made. `C` is that
/// description. A handle is never changed after it was made.
pub struct Logger<C> {
    token: String,
    id: u64,
    channel: C,
}

/// The values of a handle.
pub struct LoggerView<C> {
    pub token: Seq<char>,
    pub id: u64,
    pub channel: C,
}

impl<C> View for Logger<C> {
    type V = LoggerView<C>;

    closed spec fn view(&self) -> LoggerView<C> {
        LoggerView { token: self.token@, id: self.id, channel: self.channel }
    }
}

impl<C> Logger<C> {
    /// The handle that a resolution of the remote channel gives: none where
    /// the resolution failed, and then the kind of the failure.
    pub open spec fn new_spec(
        webhook_id: u64,
        webhook_token: Seq<char>,
        resolved: Result<C, SinkError>,
    ) -> Result<LoggerView<C>, FailureKind> {
        match resolved {
            Ok(channel) => Ok(LoggerView { token: webhook_token, id: webhook_id, channel }),
            Err(error) => Err(classify_spec(error)),
        }
    }

    /// Makes the handle, given what the one remote call that resolves the
    /// channel came to. A failed resolution leaves no handle: the caller is
    /// to give up, not to go on with a sink that cannot be used.
    pub fn new(webhook_id: u64, webhook_token: &str, resolved: Result<C, SinkError>) -> (made:
        Result<Self, FailureKind>)
        ensures
            made is Ok == Self::new_spec(webhook_id, webhook_token@, resolved) is Ok,
            made matches Ok(logger) ==> Ok::<LoggerView<C>, FailureKind>(logger@) == Self::new_spec(
                webhook_id,
                webhook_token@,
                resolved,
            ),
            made matches Err(kind) ==> Err::<LoggerView<C>, FailureKind>(kind) == Self::new_spec(
                webhook_id,
                webhook_token@,
                resolved,
            ),
    {
        match resolved {
            Ok(channel) => Ok(
                Logger { token: String::from_str(webhook_token), id: webhook_id, channel },
            ),
            Err(error) => Err(classify(error)),
        }
    }

    /// Makes the handle for the configured webhook.
    pub fn new_default(constants: &Constants, resolved: Result<C, SinkError>) -> (made: Result<
        Self,
        FailureKind,
    >)
        ensures
            made is Ok == resolved is Ok,
            made matches Ok(logger) ==> Ok::<LoggerView<C>, FailureKind>(logger@) == Self::new_spec(
                constants.default_webhook_id,
                constants.default_webhook_token@,
                resolved,
            ),
            made matches Err(kind) ==> Err::<LoggerView<C>, FailureKind>(kind) == Self::new_spec(
                constants.default_webhook_id,
                constants.default_webhook_token@,
                resolved,
            ),
    {
        Self::new(constants.default_webhook_id, constants.default_webhook_token.as_str(), resolved)
    }

    /// The credential.
    pub fn token(&self) -> (token: &str)
        ensures
            token@ == self@.token,
    {
        self.token.as_str()
    }

    /// The identifier of the webhook.
    pub fn id(&self) -> (id: u64)
        ensures
            id == self@.id,
    {
        self.id
    }

    /// The description of the remote channel.
    pub fn channel(&self) -> (channel: &C)
        ensures
            *channel == self@.channel,
    {
        &self.channel
    }
}

/// Whether a delivery waits for the remote confirmation: only where the
/// caller asks for it.
pub fn wait_for_ack(wait: Option<bool>) -> (waits: bool)
    ensures
        waits == (wait == Some(true)),
{
    match wait {
        Some(waits) => waits,
        None => false,
    }
}

/// A place for a value that is made on first use and kept from then on.
pub struct Lazy<T> {
    value: Option<T>,
}

impl<T> View for Lazy<T> {
    type V = Option<T>;

    closed spec fn view(&self) -> Option<T> {
        self.value
    }
}

impl<T> Lazy<T> {
    /// An empty place.
    pub fn new() -> (place: Self)
        ensures
            place@ is None,
    {
        Lazy { value: None }
    }

    /// The value, where it was made already.
    pub fn get(&self) -> (value: Option<&T>)
        ensures
            value is Some == self@ is Some,
            value matches Some(held) ==> Some(*held) == self@,
    {
        self.value.as_ref()
    }

    /// The value of the place. Where there is none yet it is made by `make`
    /// and kept; where there is one it is handed out as it is, and `make` is
    /// not called.
    pub fn get_or_insert_with<F: FnOnce() -> T>(&mut self, make: F) -> (value: &T)
        requires
            make.requires(()),
        ensures
            final(self)@ == Some(*value),
            old(self)@ is Some ==> final(self)@ == old(self)@,
            old(self)@ is None ==> make.ensures((), *value),
    {
        if self.value.is_none() {
            self.value = Some(make());
        }
        self.value.as_ref().unwrap()
    }
}

} // verus!

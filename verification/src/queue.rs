//! The forwarding queue: the producers' write handle and the consumer that
//! drains it.
//!
//! The queue itself is an unbounded channel. A [`LoggerWriter`] is a producer
//! handle: it never waits for the sink, and the only failure it reports is a
//! closed channel. The [`QueueConsumer`] owns the receiving half. Its caller
//! runs the loop: it asks for the next action, performs it, and asks again
//! until the action is [`ConsumerAction::Stop`].

use crate::channel;
use crate::config::{flag_enabled, is_logging_enabled, raw_view};
use crate::text::{decode_lossy, utf8_lossy, wrap_fragment, wrapped};
use vstd::prelude::*;

verus! {

/// What one look into the receiving half of the channel found.
#[derive(Debug)]
pub enum Polled<T> {
    /// The oldest fragment that was waiting.
    Item(T),
    /// Nothing is waiting, but a producer is still alive.
    Empty,
    /// Nothing is waiting and no producer is left.
    Closed,
}

/// What the consumer's caller is to do next.
#[derive(Debug)]
pub enum ConsumerAction<P> {
    /// Hand `payload` to the sink client. `wait` says whether to wait for
    /// the remote confirmation.
    Deliver { payload: P, wait: bool },
    /// Nothing to deliver now: yield, then ask again.
    Idle,
    /// The channel is closed and drained: leave the loop.
    Stop,
}

/// The only failure that a producer ever sees.
#[derive(Clone, Copy, Debug, PartialEq, Eq, Structural)]
pub enum WriteError {
    /// The channel is closed: the fragment was not enqueued.
    NotConnected,
}

impl View for Polled<String> {
    type V = Polled<Seq<char>>;

    open spec fn view(&self) -> Polled<Seq<char>> {
        match self {
            Polled::Item(text) => Polled::Item(text@),
            Polled::Empty => Polled::Empty,
            Polled::Closed => Polled::Closed,
        }
    }
}

impl View for ConsumerAction<String> {
    type V = ConsumerAction<Seq<char>>;

    open spec fn view(&self) -> ConsumerAction<Seq<char>> {
        match self {
            ConsumerAction::Deliver { payload, wait } => ConsumerAction::Deliver {
                payload: payload@,
                wait: *wait,
            },
            ConsumerAction::Idle => ConsumerAction::Idle,
            ConsumerAction::Stop => ConsumerAction::Stop,
        }
    }
}

/// The action that each finding asks for: a fragment is delivered at once,
/// alone, decorated, and without waiting for a confirmation.
pub open spec fn action_of(polled: Polled<Seq<char>>) -> ConsumerAction<Seq<char>> {
    match polled {
        Polled::Item(text) => ConsumerAction::Deliver { payload: wrapped(text), wait: false },
        Polled::Empty => ConsumerAction::Idle,
        Polled::Closed => ConsumerAction::Stop,
    }
}

/// What an enqueue reports, given what the channel said: `closed` is the
/// channel's answer before the attempt, `refused` whether the attempt
/// itself came back with the fragment.
pub open spec fn enqueue_result_spec(closed: bool, refused: bool) -> Result<(), WriteError> {
    if closed || refused {
        Err(WriteError::NotConnected)
    } else {
        Ok(())
    }
}

/// The fragment that a write puts on the queue: none while forwarding is
/// off, else the bytes decoded as text, invalid sequences replaced.
pub open spec fn forwarded(bytes: Seq<u8>, flag: Option<Seq<char>>) -> Option<Seq<char>> {
    if flag_enabled(flag) {
        Some(utf8_lossy(bytes))
    } else {
        None
    }
}

/// What a write reports: the number of bytes taken, which is all of them,
/// unless the fragment could not be enqueued.
pub open spec fn write_result_spec(len: usize, enqueued: Option<Result<(), WriteError>>) -> Result<
    usize,
    WriteError,
> {
    match enqueued {
        Some(Err(error)) => Err(error),
        _ => Ok(len),
    }
}

/// Decides the consumer's action from what it found in the channel.
pub fn consumer_action(polled: Polled<String>) -> (action: ConsumerAction<String>)
    ensures
        action@ == action_of(polled@),
{
    match polled {
        Polled::Item(text) => ConsumerAction::Deliver {
            payload: wrap_fragment(text.as_str()),
            wait: false,
        },
        Polled::Empty => ConsumerAction::Idle,
        Polled::Closed => ConsumerAction::Stop,
    }
}

/// Decides what an enqueue reports from what the channel said.
pub fn enqueue_result(closed: bool, refused: bool) -> (result: Result<(), WriteError>)
    ensures
        result == enqueue_result_spec(closed, refused),
{
    if closed || refused {
        Err(WriteError::NotConnected)
    } else {
        Ok(())
    }
}

/// Decides what a write puts on the queue. With forwarding off that is
/// nothing, whatever the bytes are.
pub fn fragment_to_forward(bytes: &[u8], flag: Option<&str>) -> (fragment: Option<String>)
    ensures
        fragment is Some == forwarded(bytes@, raw_view(flag)) is Some,
        fragment matches Some(text) ==> Some(text@) == forwarded(bytes@, raw_view(flag)),
        !flag_enabled(raw_view(flag)) ==> fragment is None,
{
    if is_logging_enabled(flag) {
        Some(decode_lossy(bytes))
    } else {
        None
    }
}

/// Decides what a write reports from what became of its fragment:
/// `enqueued` is `None` where nothing was to be enqueued.
pub fn write_result(len: usize, enqueued: Option<Result<(), WriteError>>) -> (result: Result<
    usize,
    WriteError,
>)
    ensures
        result == write_result_spec(len, enqueued),
{
    match enqueued {
        Some(Err(error)) => Err(error),
        _ => Ok(len),
    }
}

/// A producer's handle on the forwarding queue.
#[verifier::reject_recursive_types(T)]
pub struct LoggerWriter<T> {
    tx: tokio::sync::mpsc::UnboundedSender<T>,
}

/// The consuming end of the forwarding queue.
pub struct QueueConsumer {
    rx: tokio::sync::mpsc::UnboundedReceiver<String>,
    open: bool,
    seen: Ghost<Seq<Polled<Seq<char>>>>,
}

impl<T> Clone for LoggerWriter<T> {
    /// One more producer handle on the same queue.
    fn clone(&self) -> (other: Self) {
        LoggerWriter { tx: self.tx.clone() }
    }
}

impl<T> LoggerWriter<T> {
    /// Enqueues a message without waiting. The channel alone decides whether
    /// it takes the message; [`enqueue_result`] says what is reported for
    /// each of its answers.
    pub fn say_str_sync(&self, message: T) -> (result: Result<(), WriteError>)
        ensures
            result == Ok::<(), WriteError>(()) || result == Err::<(), WriteError>(
                WriteError::NotConnected,
            ),
    {
        if self.tx.is_closed() {
            enqueue_result(true, false)
        } else {
            let sent = channel::send(&self.tx, message);
            enqueue_result(false, sent.is_err())
        }
    }
}

impl LoggerWriter<String> {
    /// Opens a forwarding queue: the first producer handle, and the consumer
    /// that is to drain it.
    pub fn new() -> (ends: (Self, QueueConsumer))
        ensures
            ends.1.is_open(),
            ends.1.findings() == Seq::<Polled<Seq<char>>>::empty(),
    {
        let (tx, rx) = tokio::sync::mpsc::unbounded_channel();
        (LoggerWriter { tx }, QueueConsumer { rx, open: true, seen: Ghost(Seq::empty()) })
    }

    /// Takes the bytes of one log record. They are decoded as UTF-8, invalid
    /// sequences replaced, and enqueued as one fragment, unless `flag`, the
    /// raw text of the forwarding flag, leaves forwarding off: then nothing
    /// is enqueued and the write succeeds at once. A write takes all of the
    /// bytes or none, and fails only where the channel refuses the fragment.
    pub fn write(&self, buf: &[u8], flag: Option<&str>) -> (result: Result<usize, WriteError>)
        ensures
            !flag_enabled(raw_view(flag)) ==> result == Ok::<usize, WriteError>(buf@.len() as usize),
            result == Ok::<usize, WriteError>(buf@.len() as usize) || result == Err::<
                usize,
                WriteError,
            >(WriteError::NotConnected),
    {
        match fragment_to_forward(buf, flag) {
            None => write_result(buf.len(), None),
            Some(fragment) => write_result(buf.len(), Some(self.say_str_sync(fragment))),
        }
    }

    /// Does nothing: a write holds nothing back.
    pub fn flush(&self) -> (result: Result<(), WriteError>)
        ensures
            result is Ok,
    {
        Ok(())
    }
}

impl QueueConsumer {
    /// Whether the consumer has not yet seen the channel closed.
    pub closed spec fn is_open(&self) -> bool {
        self.open
    }

    /// What the consumer found in the channel so far, look by look.
    pub closed spec fn findings(&self) -> Seq<Polled<Seq<char>>> {
        self.seen@
    }

    /// Whether the consumer has not yet seen the channel closed.
    pub fn running(&self) -> (open: bool)
        ensures
            open == self.is_open(),
    {
        self.open
    }

    /// Looks into the channel once and says what to do. What is found there
    /// depends on the producers and is added to the findings; the action is
    /// the one that [`consumer_action`] gives for it. Once the channel was
    /// found closed the consumer never looks again.
    pub fn next_action(&mut self) -> (action: ConsumerAction<String>)
        ensures
            old(self).is_open() ==> final(self).findings().len() == old(self).findings().len() + 1
                && final(self).findings().drop_last() == old(self).findings() && action@
                == action_of(final(self).findings().last()),
            !old(self).is_open() ==> final(self).findings() == old(self).findings()
                && action is Stop,
            final(self).is_open() == !(action is Stop),
    {
        if !self.open {
            return ConsumerAction::Stop;
        }
        let polled = channel::try_recv(&mut self.rx);
        proof {
            self.seen@ = self.seen@.push(polled@);
            assert(self.seen@.drop_last() =~= old(self).seen@);
        }
        let action = consumer_action(polled);
        if let ConsumerAction::Stop = action {
            self.open = false;
        }
        action
    }
}

/// The payloads that a consumer asks to be delivered in the course of its
/// findings: one for each fragment found, in the order in which they were
/// found.
pub open spec fn deliveries(findings: Seq<Polled<Seq<char>>>) -> Seq<Seq<char>>
    decreases findings.len(),
{
    if findings.len() == 0 {
        Seq::empty()
    } else {
        match action_of(findings.last()) {
            ConsumerAction::Deliver { payload, wait } => deliveries(findings.drop_last()).push(
                payload,
            ),
            _ => deliveries(findings.drop_last()),
        }
    }
}

/// The fragments among the findings, in the order in which they were found.
pub open spec fn fragments_found(findings: Seq<Polled<Seq<char>>>) -> Seq<Seq<char>>
    decreases findings.len(),
{
    if findings.len() == 0 {
        Seq::empty()
    } else {
        match findings.last() {
            Polled::Item(text) => fragments_found(findings.drop_last()).push(text),
            _ => fragments_found(findings.drop_last()),
        }
    }
}

/// The consumer delivers what it finds, as it finds it.
///
/// Whatever a consumer finds in the channel, the payloads that it asks to
/// be delivered are the fragments that it found, each decorated, each once,
/// in the order in which they came out of the channel.
pub proof fn law_consumer_delivers_what_it_finds(findings: Seq<Polled<Seq<char>>>)
    ensures
        deliveries(findings).len() == fragments_found(findings).len(),
        forall|i: int|
            0 <= i < deliveries(findings).len() ==> #[trigger] deliveries(findings)[i] == wrapped(
                fragments_found(findings)[i],
            ),
    decreases findings.len(),
{
    if findings.len() > 0 {
        law_consumer_delivers_what_it_finds(findings.drop_last());
    }
}

} // verus!

//! Forwarding of log output to a remote webhook sink.
//!
//! Producers hand text to a [`queue::LoggerWriter`], which never waits for
//! the network. A single [`queue::QueueConsumer`] drains the queue in order
//! and tells its caller what to deliver. What a delivery came to is
//! classified in [`delivery`] and never reaches a producer. [`sink`] holds
//! the handle on the remote end, [`config`] the settings, and [`pipeline`]
//! states what holds of the whole for every way in which producers and
//! consumer may take turns.
//!
//! The library does no input or output. Its caller reads the environment,
//! talks to the network and runs the consumer's loop; the library decides.
//! The queue is a channel of `tokio`, which [`channel`] declares.

pub mod channel;
pub mod client;
pub mod config;
pub mod delivery;
pub mod message;
pub mod pipeline;
pub mod queue;
pub mod sink;
pub mod text;

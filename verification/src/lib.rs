//! Fan-out of account updates to a set of subscriber plugins.
//!
//! The producer hands every account mutation to a notifier, which either delivers it
//! inline to every subscriber or queues it on a bounded channel for a background
//! worker. A full or closed queue never stalls the producer: the event is delivered
//! inline instead, which may let it overtake events that still wait in the queue.
//! One subscriber's failure is recorded and never keeps the others from being called.
//!
//! The notifier does not own the subscribers, the worker thread or a log: the caller
//! passes the subscriber set to each call, starts and joins the worker, and gets back
//! a record of every call made to a subscriber.

pub mod account;
pub mod base58;
pub mod dispatch;
pub mod key;
pub mod latency;
pub mod notifier;
pub mod owners;
pub mod plugin;

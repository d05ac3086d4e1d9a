//! A relay between a publish/subscribe message bus and an application's
//! event stream.
//!
//! The library holds the decisions of the relay: in which order the
//! subscription is set up, what is done with each thing that the transport
//! hands over, and what follows a broadcast that failed. Whoever owns the
//! socket and the event stream performs the actions and hands the outcomes
//! back.

pub mod json;
pub mod event;
pub mod relay;
pub mod trace;

//! A backlog of chat commands and the two consumers that serve it.
//!
//! Chat lines are parsed into typed commands ([`command_framework`]) and
//! kept as messages in an append-only log ([`store`]). A message moves
//! through the stages `Unverified → Awaiting → InProcess → Completed` and
//! never back ([`twitch::status`]).
//!
//! Two consumers draw from the log. The poller ([`event_poller`]) serves
//! one message at a time: it takes up the oldest awaiting message only
//! while no message is in process, has the side effect performed that the
//! message's command calls for ([`event_poller::dispatch`]), and completes
//! the message whether or not that succeeded. The response router
//! ([`api`]) answers a chat request either through the AI client or by
//! replaying the oldest awaiting message of its reply source.
//!
//! Both consumers are state machines: they say what they need done and are
//! told what came of it, so that waiting, storing and sending stay outside
//! this crate. Both take a message by a claim, a transition that succeeds
//! only from the stage the consumer saw the message at. A message is
//! therefore taken by one consumer at most, and at most one message is in
//! process, however the steps of the consumers interleave ([`invariants`],
//! [`interleaving`]). The backlog is not divided between the consumers:
//! a message that both could serve goes to the one whose claim comes first.
//!
//! The remaining modules hold what the handlers compute before they act:
//! the request to the AI client ([`open_ai`], [`prompt`]), track references
//! ([`spotify`]), the theme resource ([`chaos`]) and the terminal script
//! ([`terminal`]).
pub mod api;
pub mod chaos;
pub mod command_framework;
pub mod event_poller;
pub mod interleaving;
pub mod invariants;
pub mod open_ai;
pub mod prompt;
pub mod spotify;
pub mod store;
pub mod terminal;
pub mod text;
pub mod twitch;

//! Long-polling chat-bot core: a cursor-tracking update poller, an
//! inline-query answer builder, and the per-event dispatch rules.
//!
//! Everything here is pure logic over plain values. The network transport,
//! JSON codecs and process wiring live outside the library and hand in
//! decoded values (an [`models::Envelope`] of events) and carry out the
//! [`dispatch::Action`]s handed back.

pub mod answer;
pub mod dispatch;
pub mod fetcher;
pub mod models;
pub mod poller;

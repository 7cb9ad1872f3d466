//! Decision logic of a text reader that speaks an editor's contents: the
//! bounded-retry start-up of a speech engine, and the session that keeps a
//! "playing" flag in step with the engine's utterance notifications.

pub mod flag;
pub mod talker;
pub mod reader;

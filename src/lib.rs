//! Playback orchestration for a chat-driven media player: a FIFO request
//! queue, busy gates and cancel signals, and the decisions of the drain,
//! tracker and repeat loops, together with the text handling around them.

pub mod text;
pub mod node;
pub mod queue;
pub mod gate;
pub mod engine;
pub mod tracker;
pub mod links;
pub mod repeat;
pub mod duration;
pub mod chat;
pub mod command;

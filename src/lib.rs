//! Verified core of a chat-driven console session: controller state,
//! button layout, frame-stepping operations, artifact encoding and the
//! queue of pending events.
pub mod control;
pub mod layout;
pub mod render;
pub mod operation;
pub mod queue;
pub mod session;

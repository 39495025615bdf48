//! A live meeting recorder's core: a bounded sample queue between the capture
//! callback and the streaming task, the streaming session's state machine, and
//! the meeting note that collects the transcript and renders it as Markdown.

pub mod text;
pub mod notes;
pub mod queue;
pub mod pcm;
pub mod session;
pub mod control;
pub mod capture;

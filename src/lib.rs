//! Pull-request review bot: decides what to do with a pull-request webhook,
//! which changed files to review, what to ask the completion service, and
//! what to post back as comments. Network I/O stays with the caller.

pub mod json;
pub mod text;
pub mod event;
pub mod files;
pub mod analysis;
pub mod publish;
pub mod pipeline;
pub mod laws;

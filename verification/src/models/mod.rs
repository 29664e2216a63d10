pub mod account;
pub mod thread;
pub mod thread_comment;

pub mod account_service;
pub mod comment_service;
pub mod numbering;
pub mod thread_service;

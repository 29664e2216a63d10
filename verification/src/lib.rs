//! Verified core of a small discussion board: accounts, threads and
//! comments, the validation rules applied to every form, the numbering of
//! new records and the messages shown to the user.

pub mod error_msg;
pub mod flows;
pub mod laws;
pub mod models;
pub mod password_format;
pub mod password_hash;
pub mod screen_status;
pub mod service;
pub mod session;

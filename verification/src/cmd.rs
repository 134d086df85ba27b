//! The rules behind each command: what it computes from what was read, and
//! what it asks to be done next.

pub mod add;
pub mod common;
pub mod delete;
pub mod export_dotenv;
pub mod get;
pub mod import;
pub mod init;
pub mod list;
pub mod lock;
pub mod remove;
pub mod rotate;
pub mod run;
pub mod unlock;

//! Birthday notifier: scans birthday records for dates matching today or an
//! upcoming warning day, and plans the notification messages to print and send.
//!
//! The core logic — date-key rendering, record matching, message formatting and
//! the decision whether a message is sent — is verified. Reading the
//! configuration and the record file, the console and the HTTP transport live
//! outside the library.

pub mod config;
pub mod datekey;
pub mod dates;
pub mod formatter;
pub mod matcher;
pub mod plan;

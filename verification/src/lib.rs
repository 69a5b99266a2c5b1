//! Command-dispatch boundary of a desktop application shell.
//!
//! A user interface names one of a closed set of operations and hands over
//! a map of named arguments. The router decides, without any I/O, whether
//! the name is known and the arguments have the expected shape, hands the
//! typed request to the one matching handler, and wraps whatever the handler
//! reports into a uniform result.

pub mod text;
pub mod error;
pub mod command;
pub mod url;
pub mod payload;
pub mod request;
pub mod router;
pub mod report;
pub mod greeting;

//! The decisions of a Node.js bridge to a KurrentDB client: reading the
//! options that JavaScript callers pass, mapping client failures to the errors
//! that JavaScript sees, and cutting a stream of events into pages.

pub mod text;
pub mod error;
pub mod js;
pub mod options;
pub mod paging;
pub mod client;
pub mod laws;

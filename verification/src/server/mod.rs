//! What the HTTP front end decides, apart from the transport itself.

pub mod handlers;
pub mod paths;
pub mod queries;

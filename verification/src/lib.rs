//! A mock package-registry responder: a handful of fixed path prefixes, each
//! answered with a canned JSON payload, and `404 Not Found` for everything else.

pub mod json;
pub mod message;
pub mod registry;
pub mod router;
pub mod text;

//! The concierge.

pub mod concierge_handler;

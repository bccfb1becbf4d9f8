//! The agents and the state they keep.

pub mod concierge;
pub mod model;
pub mod state_management;

//! Users: profiles, profile updates, and the user search.

pub mod model;
pub mod validation;
pub mod profile_flow;

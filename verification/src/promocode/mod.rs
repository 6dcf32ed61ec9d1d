//! Promo codes: the code format, redemption, trial code issuing and lookup.

pub mod model;
pub mod code;
pub mod redeem;
pub mod trial;
pub mod info;
pub mod store;

//! Verified core of a two-sided perpetual-futures trade cycle: request
//! signing, canonical parameter serialization, feed classification, channel
//! semantics, and the order-lifecycle state machine.

pub mod channels;
pub mod feed;
pub mod gateway;
pub mod json;
pub mod lifecycle;
pub mod models;
pub mod params;
pub mod qty;
pub mod signing;
pub mod text;

//! Device identity derivation, product snapshot extraction and the retained
//! message lifecycle of a discoverable price-tracking device.

pub mod text;
pub mod identity;
pub mod locator;
pub mod json;
pub mod snapshot;
pub mod discovery;
pub mod lifecycle;
pub mod retained;
pub mod session;
pub mod request;

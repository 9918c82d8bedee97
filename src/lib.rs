//! Focus monitoring core: connectivity hysteresis, focus-state debouncing,
//! port discovery decisions and a lossy multi-subscriber event broadcaster.

pub mod focus;
pub mod connectivity;
pub mod message;
pub mod monitor;
pub mod broadcast;
pub mod locator;

//! The daemon side of the protocol: start-up arbitration, liveness, the
//! request handlers' decisions and the rendering of responses.

pub mod arbitration;
pub mod client;
pub mod handlers;
pub mod interface;
pub mod liveness;
pub mod lock_stamp;
pub mod server;
pub mod startup;
pub mod startup_lock;
pub mod wire;

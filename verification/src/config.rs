//! The rule set: its data model, how a path is matched against it, and how
//! it is read from and written to JSON.

pub mod codec;
pub mod load;
pub mod model;

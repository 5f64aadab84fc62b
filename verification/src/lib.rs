//! The verified core of an in-app-purchase bridge: the data that crosses the
//! native boundary, the decoder that turns callback payloads into events, the
//! one-shot event sink and the initialization gate in front of the commands.

pub mod commands;
pub mod exception;
pub mod global_data;
pub mod iap;
pub mod json;
pub mod laws;
pub mod product;
pub mod schema;
pub mod text;
pub mod transaction;
pub mod util;

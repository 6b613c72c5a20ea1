//! The resource-to-storage mapping of a small todo service: how a todo item is
//! laid out as a flat attribute record, which request each operation sends to
//! the table store, and which response each outcome of that request earns.

pub mod attribute;
pub mod todo;
pub mod codec;
pub mod ident;
pub mod json;
pub mod http;
pub mod store;
pub mod handlers;
pub mod laws;

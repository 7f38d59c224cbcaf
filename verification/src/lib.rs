//! A verified core for a linked-device client of an end-to-end encrypted
//! messaging service: the durable protocol-state store, the key-material
//! generator, the provisioning state machine, and the session-reconciliation
//! and dispatch engine.

pub mod address;
pub mod api;
pub mod codec;
pub mod dispatch;
pub mod error;
pub mod http;
pub mod keys;
pub mod kv;
pub mod messages;
pub mod pre_keys;
pub mod provision;
pub mod qrcode;
pub mod random;
pub mod register;
pub mod records;
pub mod store;
pub mod time;

pub use error::Error;

//! Server-side publish/subscribe core for an OPC UA style session: monitored
//! items, the per-subscription publish state machine, the subscription
//! registry and the request dispatcher, together with the register-table
//! configuration of the Modbus bridge. Every function is verified against the
//! contract it carries.

pub mod config;
pub mod status;
mod seq_facts;
pub mod monitored_item;
pub mod subscription;
pub mod subscription_laws;
pub mod subscription_state;
pub mod session;
pub mod message_handler;

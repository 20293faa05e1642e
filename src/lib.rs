//! Projects committed ledger state into block-versioned records: the subscription
//! protocol, the event-frame parser, the namespace router and the entity transforms.

pub mod addressing;
pub mod conversions;
pub mod errors;
pub mod event_handler;
pub mod events;
pub mod models;
pub mod proto;
pub mod subscriber;
pub mod text;
pub mod transformer;

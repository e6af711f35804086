//! Remote execution over an inter-ledger channel: the host-side packet state
//! machine, the acknowledgement codec and the controller-side packet builder.
pub mod ack;
pub mod callback;
pub mod capturer;
pub mod controller;
pub mod dispatch;
pub mod host;
pub mod json;
pub mod order;
pub mod packet;
pub mod queries;
pub mod registry;
pub mod responses;

//! Remote-control plane of an embedded storage appliance: the session state
//! machine of the outbound connection, the command protocol and its codec,
//! the command processor, and the decisions of the loop that drives them.

pub mod benchmark;
pub mod client;
pub mod codec;
pub mod config;
pub mod event_loop;
pub mod json;
pub mod lifecycle;
pub mod msc_device;
pub mod msgpack;
pub mod processor;
pub mod protocol;
pub mod session;
pub mod storage;
pub mod stream;
pub mod timestamp;

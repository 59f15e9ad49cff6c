//! A verified model of the packet-interception pipeline of a real-time
//! transport stack: the side-channel attribute bag, the four capability
//! interfaces, the interceptor binding and chaining contract, and a loopback
//! stream harness whose pumps turn injected packets into a consumable,
//! already-decoded packet stream.
//!
//! The wire-format codec for media and control packets is an external
//! collaborator: the library calls it through a small set of trusted
//! wrappers and states their results with uninterpreted names.

pub mod attributes;
pub mod capability;
pub mod codec;
pub mod errors;
pub mod interceptor;
pub mod mock_stream;
pub mod packet;
pub mod queue;
pub mod stream_info;

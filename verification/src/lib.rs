//! Codec support for a DDS-style publish/subscribe binding.
//!
//! The crate computes static upper bounds on a type's CDR-encoded size and
//! alignment, derives a key projection of a data type, computes the 16-byte
//! key-hash mandated by the wire protocol, and maintains a memoized duality
//! between a full sample value and its key-only projection.

pub mod cdr_bounds;
pub mod codec;
pub mod duration;
pub mod entity;
pub mod error;
pub mod key_hash;
pub mod listener;
pub mod policy;
pub mod qos;
pub mod read_operation;
pub mod sample;
pub mod serdata;
pub mod state;
pub mod status;
pub mod time;
pub mod topicable;
pub mod topics;
pub mod waitset;
pub mod wire;

pub use duration::Duration;
pub use error::Error;
pub use listener::{
    PublisherListener, ReaderListener, SubscriberListener, TopicListener, WriterListener,
};
pub use qos::QoS;
pub use state::State;
pub use time::Time;
pub use topicable::Topicable;

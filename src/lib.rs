//! Client-side model of the MPRIS media-player remote-control protocol.
//!
//! The library turns the loosely typed values that travel over the message bus
//! into a typed model of player state and change notifications, and decides how
//! bus replies and failures map onto results. Talking to the bus itself is left
//! to the caller, which hands the library plain values.

pub mod client;
pub mod errors;
pub mod metadata;
pub mod session;
pub mod text;
pub mod track;
pub mod value;

pub use client::{BusMessage, ChangedProperty, MessageType, MprisSignal};
pub use errors::{ErrorKind, Result, TransportError};
pub use metadata::{MetadataMap, Timestamp};
pub use session::PlayerBus;
pub use track::{LoopStatus, PlaybackStatus, TrackId};
pub use value::WireValue;

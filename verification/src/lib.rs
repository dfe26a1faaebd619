//! A client library for the SIP2 self-service protocol: a static catalog of
//! message shapes, a codec between structured messages and wire text, the
//! pure half of the transport framing, and the transaction layer that builds
//! requests and interprets responses.

pub use self::error::Error;
pub use self::message::Field;
pub use self::message::FixedField;
pub use self::message::Message;
pub use self::params::ItemInfoParams;
pub use self::params::LoginParams;
pub use self::params::ParamBuilder;
pub use self::params::PatronInfoParams;
pub use self::params::PatronStatusParams;
pub use self::params::SipResponse;

pub mod catalog;
pub mod client;
pub mod framing;
pub mod util;

mod error;
mod message;
mod params;

use vstd::prelude::*;

verus! {

/// The version of the protocol that this library speaks.
pub const SIP_PROTOCOL_VERSION: &'static str = "2.00";

/// One terminator character marks the end of each message on the wire.
pub const LINE_TERMINATOR: char = '\r';

} // verus!

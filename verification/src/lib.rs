//! Protocol identifiers of a packet-capture agent: the wire codes of Ethernet
//! types, IP protocols, application protocols, link types and capture taps,
//! their symbolic names, and the classification rules built on them (TCP flag
//! plausibility, and the least sizes of each header stack).
//!
//! Every type is an immutable value; every function is pure and total on the
//! inputs its contract admits.

pub mod error;
pub mod ethernet;
pub mod header;
pub mod ip;
pub mod l7;
pub mod link;
pub mod tap;
pub mod tcp_flags;
pub mod text;

pub use error::ConversionError;
pub use ethernet::EthernetType;
pub use header::HeaderType;
pub use ip::{IpProtocol, L4Protocol};
pub use l7::L7Protocol;
pub use link::{IfType, LinkType, LinuxSllPacketType};
pub use tap::TapType;
pub use tcp_flags::TcpFlags;

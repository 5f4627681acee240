//! Core of an embeddable HTTP/1.x server: connection accounting, the accept
//! loop's error policy, graceful shutdown and the cached `Date` header.

pub mod accept;
pub mod config;
pub mod date;
pub mod live;
pub mod serve;
pub mod server;

pub use accept::{AcceptAction, AcceptErrorKind, AcceptLoop, AcceptOutcome, connection_error};
pub use config::Http;
pub use date::DateCache;
pub use live::LiveCount;
pub use serve::{HyperService, Opaque, Sealed, Sealed2, Serve, SocketAddrService};
pub use server::{AcceptEnd, RunPhase, ServerRun};

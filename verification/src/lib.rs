//! Remote control of a media player that runs as a child process.
//!
//! The crate holds the decisions of the control engine: the table that
//! correlates requests with responses, the shapes of the wire messages and the
//! rule that encodes a result on the wire, the routing of what the player
//! sends, and the order in which the player is shut down. Sockets, processes
//! and the asynchronous runtime stay with the program that embeds the crate.

pub mod json;
pub mod messages;
pub mod pending;
pub mod ipc;
pub mod codec;
pub mod supervisor;
pub mod backoff;
pub mod media;
pub mod protocol;
pub mod settings;

pub use crate::ipc::{IPCError, IPCResult};
pub use crate::messages::{
    is_false, is_zero, Command, MPVEnvelope, MPVEvent, MPVEventKind, PropertyChange, Response,
};
pub use crate::pending::Pending;
pub use crate::supervisor::{CloseError, Config, ConfigBuilder, StartError};

//! A reconnectable client for a topic-multiplexed channel protocol, with a
//! resumable multipart-upload tracker riding on the same connection.
//!
//! Everything here is plain state and decisions: the transport, the timers,
//! the durable store and the configuration file live with the caller, which
//! feeds events in and carries the resulting frames out.

pub mod config;
pub mod envelope;
pub mod errors;
pub mod ids;
pub mod plan;
pub mod queue;
pub mod session;
pub mod text;
pub mod uploader;
pub mod web;

pub use config::{ClientConfiguration, Connected, ConnectionSupervisor, SessionStart};
pub use envelope::{
    ChannelMessage, DestinationType, InitiateUploadPayload, JoinReference, MessageType,
    MsgReference, Topic,
};
pub use errors::{ClientError, MissingSetting, UploaderError};
pub use plan::{chunk_plan, ChunkPlan};
pub use queue::OutboundQueue;
pub use session::{Route, Session, SessionState};
pub use uploader::Uploader;
pub use web::{Page, PageVariables, Template};

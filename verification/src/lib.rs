//! Rust-side core of a bridge between managed application code and a native
//! RPC runtime: a total error-code mapper, single-ownership models of the
//! native resource handles (server, channel, controller, options), bounded
//! zero-copy read/write cursors over message attachments, and the planner for
//! the three-pass schema-compiler pipeline that generates the bridging code.

pub mod channel;
pub mod controller;
pub mod error;
pub mod pipeline;
pub mod server;
pub mod zero_copy;

pub use channel::Channel;
pub use channel::ChannelOptions;
pub use channel::SocketAddress;
pub use controller::Controller;
pub use error::BrpcError;
pub use error::BrpcResult;
pub use pipeline::BuildError;
pub use pipeline::PipelineConfig;
pub use pipeline::PipelinePass;
pub use pipeline::PipelinePlan;
pub use pipeline::PipelineState;
pub use server::CancelToken;
pub use server::Server;
pub use server::ServerOptions;
pub use server::Service;
pub use server::ServiceEntry;
pub use server::ServiceOwnership;
pub use server::ServiceStub;
pub use zero_copy::ZeroCopyBuf;
pub use zero_copy::ZeroCopyBufMut;

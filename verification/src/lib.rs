//! A synchronous request handler's view of an HTTP exchange.
//!
//! The crate holds the decisions that stand between an event-driven HTTP
//! transport and a blocking request handler: how the transport's request
//! looks to the handler, and what is sent back for whatever the handler did.
//! Every function is specified over plain values and proved against that
//! specification.

pub mod body;
pub mod parts;
pub mod request;
pub mod response;
pub mod service;

pub use body::Body;
pub use parts::{HttpVersion, Parts};
pub use response::{
    build_reply, check_lines, error_response, good_response, header_lines, HandlerResponse, LineFault,
    OutgoingResponse, Reply,
};
pub use service::{respond, HandlerOutcome};
pub use request::{version, ConduitRequest, Method, RemoteAddr, Scheme, Version};

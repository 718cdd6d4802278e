//! A typed remote-procedure-call framework: the length-delimited wire
//! protocol, the service registry, the model of a service definition, and
//! the decision logic of the server's connection tasks and of the client
//! call, with their contracts.

pub mod buffer;
pub mod client;
pub mod frame;
pub mod generate;
pub mod serve;
pub mod server;
pub mod service;
pub mod tls;

pub use frame::{
    FrameError, RequestFrame, RequestFrameCodec, ResponseErrorKind, ResponseFrame,
    ResponseFrameCodec,
};
pub use server::{FrozenServer, Server, ServiceName};

use vstd::prelude::*;

verus! {

/// The failure of a service call that the server reports on the wire.
#[derive(Debug, Clone, Copy, PartialEq, Eq, Structural)]
pub enum ServeError {
    MethodNotFound,
    InvalidRequest,
}

impl ServeError {
    /// The error kind that carries this failure in a response frame.
    pub fn kind(self) -> (r: ResponseErrorKind)
        ensures
            self == ServeError::MethodNotFound ==> r == ResponseErrorKind::MethodNotFound,
            self == ServeError::InvalidRequest ==> r == ResponseErrorKind::InvalidRequest,
    {
        match self {
            ServeError::MethodNotFound => ResponseErrorKind::MethodNotFound,
            ServeError::InvalidRequest => ResponseErrorKind::InvalidRequest,
        }
    }
}

} // verus!

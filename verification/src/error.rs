//! The closed set of failures that the client reports.

use vstd::prelude::*;

verus! {

/// `tonic::transport::Error`: why a channel could not be set up. Opaque here.
#[verifier::external_type_specification]
#[verifier::external_body]
pub struct ExTransportError(tonic::transport::Error);

/// `tonic::Status`: the terminal status of a remote call. Opaque here.
#[verifier::external_type_specification]
#[verifier::external_body]
pub struct ExStatus(tonic::Status);

/// `std::io::Error`: why a local execution engine could not be built. Opaque here.
#[verifier::external_type_specification]
#[verifier::external_body]
pub struct ExIoError(std::io::Error);

/// A failure of a client operation, with its cause.
#[derive(Debug)]
pub enum TempoError {
    /// The channel to the server could not be established.
    Connection(tonic::transport::Error),
    /// The server ended a call, or a step of a stream, with a non-success status.
    Rpc(tonic::Status),
    /// A local execution engine for a blocking call could not be built.
    Runtime(std::io::Error),
}

impl From<tonic::transport::Error> for TempoError {
    fn from(cause: tonic::transport::Error) -> (err: TempoError) {
        TempoError::Connection(cause)
    }
}

impl vstd::std_specs::convert::FromSpecImpl<tonic::transport::Error> for TempoError {
    open spec fn obeys_from_spec() -> bool {
        true
    }

    open spec fn from_spec(cause: tonic::transport::Error) -> TempoError {
        TempoError::Connection(cause)
    }
}

impl From<tonic::Status> for TempoError {
    fn from(cause: tonic::Status) -> (err: TempoError) {
        TempoError::Rpc(cause)
    }
}

impl vstd::std_specs::convert::FromSpecImpl<tonic::Status> for TempoError {
    open spec fn obeys_from_spec() -> bool {
        true
    }

    open spec fn from_spec(cause: tonic::Status) -> TempoError {
        TempoError::Rpc(cause)
    }
}

impl From<std::io::Error> for TempoError {
    fn from(cause: std::io::Error) -> (err: TempoError) {
        TempoError::Runtime(cause)
    }
}

impl vstd::std_specs::convert::FromSpecImpl<std::io::Error> for TempoError {
    open spec fn obeys_from_spec() -> bool {
        true
    }

    open spec fn from_spec(cause: std::io::Error) -> TempoError {
        TempoError::Runtime(cause)
    }
}

} // verus!

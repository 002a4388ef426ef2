use vstd::prelude::*;
use vstd::string::*;

verus! {

/// Why resolving the calling container's identity failed.
#[derive(Clone, Copy, Debug, PartialEq, Eq, Structural)]
pub enum IdentityFailure {
    /// The mount-record resource could not be read at all.
    Unreadable,
    /// No mount record carries either container marker.
    NotFound,
    /// A record carries a marker, but an empty identifier follows it.
    Malformed,
}

/// The five attestation operations, used to attribute every error to the
/// operation that produced it.
#[derive(Clone, Copy, Debug, PartialEq, Eq, Structural)]
pub enum Operation {
    GetCcReport,
    GetCcMeasurement,
    GetCcEventlog,
    GetMeasurementCount,
    GetDefaultAlgorithm,
}

/// How one request/response exchange failed, as the transport layer saw it.
#[derive(Clone, Copy, Debug, PartialEq, Eq, Structural)]
pub enum ExchangeFault {
    /// The channel could not be opened or broke mid-exchange.
    Transport,
    /// The server rejected a well-formed request.
    Protocol,
}

/// An error of the client. Every failure carries the operation it came from:
/// the caller must be able to tell "could not reach the service" from "could
/// not identify the caller" from "the service rejected the request".
#[derive(Clone, Copy, Debug, PartialEq, Eq, Structural)]
pub enum ClientError {
    /// The channel could not be opened or broke mid-exchange.
    Transport(Operation),
    /// The calling container's identity could not be resolved.
    Identity(Operation, IdentityFailure),
    /// The server returned a failure for a well-formed request.
    Protocol(Operation),
}

/// The name of the synchronous entry point an error is attributed to.
pub open spec fn spec_operation_name(op: Operation) -> Seq<char> {
    match op {
        Operation::GetCcReport => "get_cc_report_from_server"@,
        Operation::GetCcMeasurement => "get_cc_measurement_from_server"@,
        Operation::GetCcEventlog => "get_cc_eventlog_from_server"@,
        Operation::GetMeasurementCount => "get_cc_measurement_count_from_server"@,
        Operation::GetDefaultAlgorithm => "get_cc_default_algorithm_from_server"@,
    }
}

/// The wording of each identity failure.
pub open spec fn spec_failure_text(f: IdentityFailure) -> Seq<char> {
    match f {
        IdentityFailure::Unreadable => "the mount records could not be read"@,
        IdentityFailure::NotFound => "no container info in the mount records"@,
        IdentityFailure::Malformed => "incorrect container info in the mount records"@,
    }
}

/// The message of an error: the originating operation in brackets, then
/// what went wrong.
pub open spec fn spec_describe(e: ClientError) -> Seq<char> {
    match e {
        ClientError::Transport(op) => "["@ + spec_operation_name(op)
            + "] error reaching the server over the local socket"@,
        ClientError::Identity(op, f) => "["@ + spec_operation_name(op)
            + "] error getting the container ID: "@ + spec_failure_text(f),
        ClientError::Protocol(op) => "["@ + spec_operation_name(op)
            + "] the server rejected the request"@,
    }
}

/// The name of the synchronous entry point of `op`.
pub fn operation_name(op: Operation) -> (s: &'static str)
    ensures
        s@ == spec_operation_name(op),
{
    match op {
        Operation::GetCcReport => "get_cc_report_from_server",
        Operation::GetCcMeasurement => "get_cc_measurement_from_server",
        Operation::GetCcEventlog => "get_cc_eventlog_from_server",
        Operation::GetMeasurementCount => "get_cc_measurement_count_from_server",
        Operation::GetDefaultAlgorithm => "get_cc_default_algorithm_from_server",
    }
}

/// The wording of an identity failure.
pub fn failure_text(f: IdentityFailure) -> (s: &'static str)
    ensures
        s@ == spec_failure_text(f),
{
    match f {
        IdentityFailure::Unreadable => "the mount records could not be read",
        IdentityFailure::NotFound => "no container info in the mount records",
        IdentityFailure::Malformed => "incorrect container info in the mount records",
    }
}

impl ClientError {
    /// Render the single descriptive message of this error, naming the
    /// operation that produced it.
    pub fn describe(&self) -> (s: String)
        ensures
            s@ == spec_describe(*self),
    {
        match *self {
            ClientError::Transport(op) => String::from_str("[").concat(
                operation_name(op),
            ).concat("] error reaching the server over the local socket"),
            ClientError::Identity(op, f) => String::from_str("[").concat(
                operation_name(op),
            ).concat("] error getting the container ID: ").concat(failure_text(f)),
            ClientError::Protocol(op) => String::from_str("[").concat(
                operation_name(op),
            ).concat("] the server rejected the request"),
        }
    }
}

} // verus!

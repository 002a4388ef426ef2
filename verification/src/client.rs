use vstd::prelude::*;

use crate::errors::{ClientError, ExchangeFault, IdentityFailure, Operation};
use crate::identity::{resolve_container_id, spec_resolve};
use crate::tee::{spec_tee_type_of, TeeType};

verus! {

/// The typed request of the report operation. Container-scoped.
#[derive(Debug)]
pub struct GetCcReportRequest {
    pub container_id: String,
    pub nonce: Option<String>,
    pub user_data: Option<String>,
}

/// The typed request of the measurement operation. Container-scoped.
#[derive(Debug)]
pub struct GetCcMeasurementRequest {
    pub container_id: String,
    pub index: u32,
    pub algo_id: u32,
}

/// The typed request of the event-log operation. Container-scoped; a missing
/// `count` asks for everything from `start` on.
#[derive(Debug)]
pub struct GetCcEventlogRequest {
    pub container_id: String,
    pub start: Option<u32>,
    pub count: Option<u32>,
}

/// The typed request of the measurement-count operation. Node-scoped: it
/// carries no container identity.
pub struct GetMeasurementCountRequest {}

/// The typed request of the default-algorithm operation. Node-scoped: it
/// carries no container identity.
pub struct GetDefaultAlgorithmRequest {}

/// What identity resolution yields once the edge that reads the mount-record
/// resource is accounted for: a reader that could not produce the text at
/// all counts as the unreadable failure.
pub open spec fn spec_identity_result(mount_text: Option<&str>) -> Result<
    Seq<char>,
    IdentityFailure,
> {
    match mount_text {
        None => Err(IdentityFailure::Unreadable),
        Some(text) => spec_resolve(text@),
    }
}

/// The error an exchange fault maps to, attributed to its operation.
pub open spec fn spec_fault_error(op: Operation, fault: ExchangeFault) -> ClientError {
    match fault {
        ExchangeFault::Transport => ClientError::Transport(op),
        ExchangeFault::Protocol => ClientError::Protocol(op),
    }
}

/// The client of the privileged node-level attestation service. It holds
/// only the filesystem path of the service's local socket; the path is
/// read-only for the lifetime of the client, so nothing mutable is shared
/// between calls.
pub struct CcnpServiceClient {
    pub ccnp_uds_path: String,
}

impl CcnpServiceClient {
    /// Map a wire code to the TEE kind it names; every unknown code falls
    /// back to the plain kind, since the kind is advisory metadata and not a
    /// security decision point.
    pub fn get_tee_type_by_value(&self, tee_id: &i32) -> (t: TeeType)
        ensures
            t == spec_tee_type_of(*tee_id as int),
    {
        match *tee_id {
            -1 => TeeType::Plain,
            0 => TeeType::Tpm,
            1 => TeeType::Tdx,
            2 => TeeType::Sev,
            3 => TeeType::Cca,
            _ => TeeType::Plain,
        }
    }

    /// Resolve the calling container's identity from the mount-record text,
    /// where `None` stands for a resource that could not be read.
    pub fn get_container_id(&self, mount_text: Option<&str>) -> (r: Result<
        String,
        IdentityFailure,
    >)
        ensures
            r matches Ok(id) ==> spec_identity_result(mount_text) == Ok::<
                Seq<char>,
                IdentityFailure,
            >(id@) && id@.len() > 0,
            r matches Err(f) ==> spec_identity_result(mount_text) == Err::<
                Seq<char>,
                IdentityFailure,
            >(f),
    {
        match mount_text {
            None => Err(IdentityFailure::Unreadable),
            Some(text) => resolve_container_id(text),
        }
    }

    /// Shape the report request. Container-scoped: when identity resolution
    /// fails, the result is the identity error of the report operation and
    /// no request value exists, so nothing can reach the transport.
    pub fn prepare_cc_report_request(
        &self,
        mount_text: Option<&str>,
        nonce: Option<String>,
        user_data: Option<String>,
    ) -> (r: Result<GetCcReportRequest, ClientError>)
        ensures
            r matches Ok(req) ==> spec_identity_result(mount_text) matches Ok(id)
                && req.container_id@ == id && req.nonce == nonce && req.user_data == user_data,
            r matches Err(e) ==> spec_identity_result(mount_text) matches Err(f) && e
                == ClientError::Identity(Operation::GetCcReport, f),
    {
        match self.get_container_id(mount_text) {
            Ok(container_id) => Ok(GetCcReportRequest { container_id, nonce, user_data }),
            Err(f) => Err(ClientError::Identity(Operation::GetCcReport, f)),
        }
    }

    /// Shape the measurement request. Container-scoped: when identity
    /// resolution fails, the result is the identity error of the measurement
    /// operation and no request value exists.
    pub fn prepare_cc_measurement_request(
        &self,
        mount_text: Option<&str>,
        index: u8,
        algo_id: u16,
    ) -> (r: Result<GetCcMeasurementRequest, ClientError>)
        ensures
            r matches Ok(req) ==> spec_identity_result(mount_text) matches Ok(id)
                && req.container_id@ == id && req.index == index as u32 && req.algo_id == algo_id
                as u32,
            r matches Err(e) ==> spec_identity_result(mount_text) matches Err(f) && e
                == ClientError::Identity(Operation::GetCcMeasurement, f),
    {
        match self.get_container_id(mount_text) {
            Ok(container_id) => Ok(
                GetCcMeasurementRequest {
                    container_id,
                    index: index as u32,
                    algo_id: algo_id as u32,
                },
            ),
            Err(f) => Err(ClientError::Identity(Operation::GetCcMeasurement, f)),
        }
    }

    /// Shape the event-log request. Container-scoped: when identity
    /// resolution fails, the result is the identity error of the event-log
    /// operation and no request value exists.
    pub fn prepare_cc_eventlog_request(
        &self,
        mount_text: Option<&str>,
        start: Option<u32>,
        count: Option<u32>,
    ) -> (r: Result<GetCcEventlogRequest, ClientError>)
        ensures
            r matches Ok(req) ==> spec_identity_result(mount_text) matches Ok(id)
                && req.container_id@ == id && req.start == start && req.count == count,
            r matches Err(e) ==> spec_identity_result(mount_text) matches Err(f) && e
                == ClientError::Identity(Operation::GetCcEventlog, f),
    {
        match self.get_container_id(mount_text) {
            Ok(container_id) => Ok(GetCcEventlogRequest { container_id, start, count }),
            Err(f) => Err(ClientError::Identity(Operation::GetCcEventlog, f)),
        }
    }

    /// Shape the measurement-count request. Node-scoped: no identity is
    /// consulted and the request always exists.
    pub fn prepare_measurement_count_request(&self) -> GetMeasurementCountRequest {
        GetMeasurementCountRequest {  }
    }

    /// Shape the default-algorithm request. Node-scoped: no identity is
    /// consulted and the request always exists.
    pub fn prepare_default_algorithm_request(&self) -> GetDefaultAlgorithmRequest {
        GetDefaultAlgorithmRequest {  }
    }

    /// Classify the outcome of one exchange: a success passes through
    /// untouched — no fallback value is ever substituted for failed evidence
    /// — and a fault becomes the error of the operation that produced it.
    pub fn settle_exchange<T>(&self, op: Operation, outcome: Result<T, ExchangeFault>) -> (r:
        Result<T, ClientError>)
        ensures
            outcome matches Ok(v) ==> r == Ok::<T, ClientError>(v),
            outcome matches Err(f) ==> r == Err::<T, ClientError>(spec_fault_error(op, f)),
    {
        match outcome {
            Ok(v) => Ok(v),
            Err(ExchangeFault::Transport) => Err(ClientError::Transport(op)),
            Err(ExchangeFault::Protocol) => Err(ClientError::Protocol(op)),
        }
    }
}

} // verus!

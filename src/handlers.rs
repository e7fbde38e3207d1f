use vstd::prelude::*;
use vstd::string::StringExecFns;
use crate::vm::{ModelError, Vm};

verus! {

/// The transport status of a response.
#[derive(Debug, Clone, Copy, PartialEq, Eq, Structural)]
pub enum Status {
    Success,
    BadRequest,
}

impl Status {
    pub open spec fn spec_code(self) -> u16 {
        match self {
            Status::Success => 200,
            Status::BadRequest => 400,
        }
    }

    /// The HTTP status code.
    pub fn code(&self) -> (r: u16)
        ensures
            r == self.spec_code(),
    {
        match self {
            Status::Success => 200,
            Status::BadRequest => 400,
        }
    }
}

/// The JSON envelope of a response, before it is written out.
///
/// Each handler below takes the outcome of the repository operation it
/// stands for and decides the envelope and the status.
#[derive(Debug)]
pub enum Payload {
    /// `{"vms": [...]}`
    Vms(Vec<Vm>),
    /// `{"vm": {...}}`
    Vm(Vm),
    /// `{"vm_id": "..."}`
    VmId(u128),
    /// `{"drives": [...]}`
    Drives(Vec<u128>),
    /// `{"status": "ok"}`
    StatusOk,
    /// `{"error": "<message of the error>"}`
    Error(ModelError),
    /// `{"error": "could not start vm: <message of the error>"}`
    StartFailed(ModelError),
    /// `{"error": "could not stop vm"}`
    StopFailed,
}

impl Payload {
    pub open spec fn spec_error_text(&self) -> Option<Seq<char>> {
        match self {
            Payload::Error(e) => Some(e.spec_message()),
            Payload::StartFailed(e) => Some("could not start vm: "@ + e.spec_message()),
            Payload::StopFailed => Some("could not stop vm"@),
            _ => None,
        }
    }

    /// The text under `"error"`, for the envelopes that report a failure.
    pub fn error_text(&self) -> (r: Option<String>)
        ensures
            match r {
                Some(t) => self.spec_error_text() == Some(t@),
                None => self.spec_error_text() is None,
            },
    {
        match self {
            Payload::Error(e) => Some(e.message()),
            Payload::StartFailed(e) => {
                let m = e.message();
                Some("could not start vm: ".to_owned().concat(m.as_str()))
            },
            Payload::StopFailed => Some("could not stop vm".to_owned()),
            _ => None,
        }
    }
}

#[derive(Debug)]
pub struct ApiResponse {
    pub response: Payload,
    pub status: Status,
}

/// Lists every VM.
pub fn index(vms: Result<Vec<Vm>, ModelError>) -> (r: ApiResponse)
    ensures
        match vms {
            Ok(v) => r.status == Status::Success && r.response == Payload::Vms(v),
            Err(e) => r.status == Status::BadRequest && r.response == Payload::Error(e),
        },
{
    match vms {
        Ok(v) => ApiResponse { response: Payload::Vms(v), status: Status::Success },
        Err(e) => ApiResponse { response: Payload::Error(e), status: Status::BadRequest },
    }
}

/// Answers a fetch of one VM; a failed lookup is a bad request.
pub fn by_id(found: Result<Vm, ModelError>) -> (r: ApiResponse)
    ensures
        match found {
            Ok(vm) => r.status == Status::Success && r.response == Payload::Vm(vm),
            Err(e) => r.status == Status::BadRequest && r.response == Payload::Error(e),
        },
{
    match found {
        Ok(vm) => ApiResponse { response: Payload::Vm(vm), status: Status::Success },
        Err(e) => ApiResponse { response: Payload::Error(e), status: Status::BadRequest },
    }
}

/// Answers a creation with the new VM's id.
pub fn add_vm(created: Result<u128, ModelError>) -> (r: ApiResponse)
    ensures
        match created {
            Ok(id) => r.status == Status::Success && r.response == Payload::VmId(id),
            Err(e) => r.status == Status::BadRequest && r.response == Payload::Error(e),
        },
{
    match created {
        Ok(id) => ApiResponse { response: Payload::VmId(id), status: Status::Success },
        Err(e) => ApiResponse { response: Payload::Error(e), status: Status::BadRequest },
    }
}

/// Answers a start request. Failures are reported in the body, under a
/// success status.
pub fn start_vm(started: Result<u128, ModelError>) -> (r: ApiResponse)
    ensures
        r.status == Status::Success,
        match started {
            Ok(id) => r.response == Payload::VmId(id),
            Err(e) => r.response == Payload::StartFailed(e),
        },
{
    match started {
        Ok(id) => ApiResponse { response: Payload::VmId(id), status: Status::Success },
        Err(e) => ApiResponse { response: Payload::StartFailed(e), status: Status::Success },
    }
}

/// Answers a stop request. Failures are reported in the body, without their
/// cause, under a success status.
pub fn stop_vm(stopped: Result<u128, ModelError>) -> (r: ApiResponse)
    ensures
        r.status == Status::Success,
        match stopped {
            Ok(id) => r.response == Payload::VmId(id),
            Err(_) => r.response == Payload::StopFailed,
        },
{
    match stopped {
        Ok(id) => ApiResponse { response: Payload::VmId(id), status: Status::Success },
        Err(_) => ApiResponse { response: Payload::StopFailed, status: Status::Success },
    }
}

/// Answers an attachment of a drive to a VM.
pub fn attach_drive(attached: Result<(), ModelError>) -> (r: ApiResponse)
    ensures
        match attached {
            Ok(_) => r.status == Status::Success && r.response == Payload::StatusOk,
            Err(e) => r.status == Status::BadRequest && r.response == Payload::Error(e),
        },
{
    match attached {
        Ok(_) => ApiResponse { response: Payload::StatusOk, status: Status::Success },
        Err(e) => ApiResponse { response: Payload::Error(e), status: Status::BadRequest },
    }
}

/// Answers a listing of the drives attached to a VM; a failed lookup of the
/// VM, or of its drives, is a bad request.
pub fn drives_for_vm(drives: Result<Vec<u128>, ModelError>) -> (r: ApiResponse)
    ensures
        match drives {
            Ok(d) => r.status == Status::Success && r.response == Payload::Drives(d),
            Err(e) => r.status == Status::BadRequest && r.response == Payload::Error(e),
        },
{
    match drives {
        Ok(d) => ApiResponse { response: Payload::Drives(d), status: Status::Success },
        Err(e) => ApiResponse { response: Payload::Error(e), status: Status::BadRequest },
    }
}

} // verus!

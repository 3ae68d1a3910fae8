//! Error types and the mapping from the middleware's return codes.

use vstd::prelude::*;

verus! {

/// Return codes as the middleware reports them: zero or positive on
/// success, one of thirteen negative codes on failure.
pub const RETCODE_ERROR: i32 = -1;

pub const RETCODE_UNSUPPORTED: i32 = -2;

pub const RETCODE_BAD_PARAMETER: i32 = -3;

pub const RETCODE_PRECONDITION_NOT_MET: i32 = -4;

pub const RETCODE_OUT_OF_RESOURCES: i32 = -5;

pub const RETCODE_NOT_ENABLED: i32 = -6;

pub const RETCODE_IMMUTABLE_POLICY: i32 = -7;

pub const RETCODE_INCONSISTENT_POLICY: i32 = -8;

pub const RETCODE_ALREADY_DELETED: i32 = -9;

pub const RETCODE_TIMEOUT: i32 = -10;

pub const RETCODE_NO_DATA: i32 = -11;

pub const RETCODE_ILLEGAL_OPERATION: i32 = -12;

pub const RETCODE_NOT_ALLOWED_BY_SECURITY: i32 = -13;

/// Errors that can occur during middleware operations.
#[non_exhaustive]
#[derive(Clone, Copy, Debug, Hash, PartialEq, Eq, Structural)]
pub enum Error {
    /// Non specific error.
    NonSpecific,
    /// Feature unsupported.
    Unsupported,
    /// Bad parameter value.
    BadParameter,
    /// Precondition for operation not met.
    PreconditionNotMet,
    /// When an operation fails because of a lack of resources.
    OutOfResources,
    /// When a configurable feature is not enabled.
    NotEnabled,
    /// When an attempt is made to modify an immutable policy.
    ImmutablePolicy,
    /// When a policy is used with inconsistent values.
    InconsistentPolicy,
    /// When an attempt is made to delete something more than once.
    AlreadyDeleted,
    /// When a timeout has occurred.
    Timeout,
    /// When expected data is not provided.
    NoData,
    /// When a function is called when it should not be.
    IllegalOperation,
    /// When credentials are insufficient to use the function.
    NotAllowedBySecurity,
}

/// The error a return code stands for, as a mathematical value; success
/// codes map to nothing.
pub open spec fn spec_error_of(code: i32) -> Option<Error> {
    if code >= 0 {
        None
    } else if code == RETCODE_ERROR {
        Some(Error::NonSpecific)
    } else if code == RETCODE_UNSUPPORTED {
        Some(Error::Unsupported)
    } else if code == RETCODE_BAD_PARAMETER {
        Some(Error::BadParameter)
    } else if code == RETCODE_PRECONDITION_NOT_MET {
        Some(Error::PreconditionNotMet)
    } else if code == RETCODE_OUT_OF_RESOURCES {
        Some(Error::OutOfResources)
    } else if code == RETCODE_NOT_ENABLED {
        Some(Error::NotEnabled)
    } else if code == RETCODE_IMMUTABLE_POLICY {
        Some(Error::ImmutablePolicy)
    } else if code == RETCODE_INCONSISTENT_POLICY {
        Some(Error::InconsistentPolicy)
    } else if code == RETCODE_ALREADY_DELETED {
        Some(Error::AlreadyDeleted)
    } else if code == RETCODE_TIMEOUT {
        Some(Error::Timeout)
    } else if code == RETCODE_NO_DATA {
        Some(Error::NoData)
    } else if code == RETCODE_ILLEGAL_OPERATION {
        Some(Error::IllegalOperation)
    } else {
        Some(Error::NotAllowedBySecurity)
    }
}

/// Map a middleware return code to the result type: zero and positive codes
/// pass through as success, each known negative code becomes its error.
pub fn into_error(code: i32) -> (r: Result<i32, Error>)
    requires
        code >= RETCODE_NOT_ALLOWED_BY_SECURITY,
    ensures
        code >= 0 ==> r == Ok::<i32, Error>(code),
        code < 0 ==> r == Err::<i32, Error>(spec_error_of(code)->Some_0),
{
    if code >= 0 {
        Ok(code)
    } else if code == RETCODE_ERROR {
        Err(Error::NonSpecific)
    } else if code == RETCODE_UNSUPPORTED {
        Err(Error::Unsupported)
    } else if code == RETCODE_BAD_PARAMETER {
        Err(Error::BadParameter)
    } else if code == RETCODE_PRECONDITION_NOT_MET {
        Err(Error::PreconditionNotMet)
    } else if code == RETCODE_OUT_OF_RESOURCES {
        Err(Error::OutOfResources)
    } else if code == RETCODE_NOT_ENABLED {
        Err(Error::NotEnabled)
    } else if code == RETCODE_IMMUTABLE_POLICY {
        Err(Error::ImmutablePolicy)
    } else if code == RETCODE_INCONSISTENT_POLICY {
        Err(Error::InconsistentPolicy)
    } else if code == RETCODE_ALREADY_DELETED {
        Err(Error::AlreadyDeleted)
    } else if code == RETCODE_TIMEOUT {
        Err(Error::Timeout)
    } else if code == RETCODE_NO_DATA {
        Err(Error::NoData)
    } else if code == RETCODE_ILLEGAL_OPERATION {
        Err(Error::IllegalOperation)
    } else {
        Err(Error::NotAllowedBySecurity)
    }
}

impl Error {
    /// The message this error prints as.
    pub open spec fn spec_message(self) -> Seq<char> {
        match self {
            Error::NonSpecific => "non specific error occurred"@,
            Error::Unsupported => "unsupported feature"@,
            Error::BadParameter => "bad parameter provided"@,
            Error::PreconditionNotMet => "precondition for operation not met"@,
            Error::OutOfResources => "out of resources"@,
            Error::NotEnabled => "feature not enabled"@,
            Error::ImmutablePolicy => "attempted to modify immutable policy"@,
            Error::InconsistentPolicy => "policy has inconsistent values"@,
            Error::AlreadyDeleted => "entity already deleted"@,
            Error::Timeout => "timeout reached"@,
            Error::NoData => "data not provided"@,
            Error::IllegalOperation => "operation is illegal"@,
            Error::NotAllowedBySecurity => "insufficient credentials"@,
        }
    }

    /// A human-readable description of the error.
    pub fn message(&self) -> (r: String)
        ensures
            r@ == self.spec_message(),
    {
        let m: &str = match self {
            Error::NonSpecific => "non specific error occurred",
            Error::Unsupported => "unsupported feature",
            Error::BadParameter => "bad parameter provided",
            Error::PreconditionNotMet => "precondition for operation not met",
            Error::OutOfResources => "out of resources",
            Error::NotEnabled => "feature not enabled",
            Error::ImmutablePolicy => "attempted to modify immutable policy",
            Error::InconsistentPolicy => "policy has inconsistent values",
            Error::AlreadyDeleted => "entity already deleted",
            Error::Timeout => "timeout reached",
            Error::NoData => "data not provided",
            Error::IllegalOperation => "operation is illegal",
            Error::NotAllowedBySecurity => "insufficient credentials",
        };
        m.to_owned()
    }
}

} // verus!

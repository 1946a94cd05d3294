//! Errors of the discovery pipeline.
//!
//! Setup errors are returned synchronously by the call that starts browsing.
//! Native errors are reported by the daemon through one of its callbacks and
//! reach the caller through the discovery callback.

use crate::decimal::{push_signed_decimal, signed_decimal};
use vstd::prelude::*;

verus! {

/// The stage of the pipeline at which something happened.
#[derive(Clone, Copy, Debug, PartialEq, Eq, Structural)]
pub enum Stage {
    Browse,
    Resolve,
    GetAddressInfo,
}

impl Stage {
    /// The name of the stage as it is written in error reports.
    pub open spec fn spec_name(self) -> Seq<char> {
        match self {
            Stage::Browse => "browse"@,
            Stage::Resolve => "resolve"@,
            Stage::GetAddressInfo => "getAddressInfo"@,
        }
    }

    /// The name of the stage as it is written in error reports.
    pub fn name(&self) -> (r: &'static str)
        ensures
            r@ == self.spec_name(),
    {
        match self {
            Stage::Browse => "browse",
            Stage::Resolve => "resolve",
            Stage::GetAddressInfo => "getAddressInfo",
        }
    }
}

/// Why browsing could not be set up.
#[derive(Clone, Copy, Debug, PartialEq, Eq, Structural)]
pub enum SetupError {
    /// A string meant for the daemon holds a NUL character, so no C string
    /// can be allocated for it.
    InteriorNul,
    /// The daemon refused the connection or the registration of a request
    /// and returned `code`.
    Refused { stage: Stage, code: i32 },
}

/// A required field that a record builder was not given.
#[derive(Clone, Copy, Debug, PartialEq, Eq, Structural)]
pub enum Field {
    Name,
    Kind,
    Domain,
    HostName,
    Address,
    Port,
}

impl Field {
    /// The name of the field, as the record declares it.
    pub open spec fn spec_name(self) -> Seq<char> {
        match self {
            Field::Name => "name"@,
            Field::Kind => "kind"@,
            Field::Domain => "domain"@,
            Field::HostName => "host_name"@,
            Field::Address => "address"@,
            Field::Port => "port"@,
        }
    }

    /// The name of the field, as the record declares it.
    pub fn name(&self) -> (r: &'static str)
        ensures
            r@ == self.spec_name(),
    {
        match self {
            Field::Name => "name",
            Field::Kind => "kind",
            Field::Domain => "domain",
            Field::HostName => "host_name",
            Field::Address => "address",
            Field::Port => "port",
        }
    }
}

/// Everything that can go wrong between the start of browsing and the
/// delivery of a discovery.
#[derive(Clone, Copy, Debug, PartialEq, Eq, Structural)]
pub enum Error {
    /// Browsing could not be set up; nothing was delivered.
    Setup(SetupError),
    /// A native callback of `stage` reported the nonzero `code`.
    Native { stage: Stage, code: i32 },
    /// A discovery record was built without one of its required fields.
    Build(Field),
}

/// How a message opens that reports the code of a native callback.
pub open spec fn native_report(stage: Stage) -> Seq<char> {
    match stage {
        Stage::Browse => "browse_callback() reported error"@,
        Stage::Resolve => "error reported by resolve_callback:"@,
        Stage::GetAddressInfo => "get_address_info_callback() reported error"@,
    }
}

/// How a message opens that reports the code of a refused registration.
pub open spec fn refusal_report(stage: Stage) -> Seq<char> {
    match stage {
        Stage::Browse => "could not browse services"@,
        Stage::Resolve => "could not resolve service"@,
        Stage::GetAddressInfo => "could not get address info"@,
    }
}

/// A message that ends in the code that the daemon gave.
pub open spec fn with_code(report: Seq<char>, code: i32) -> Seq<char> {
    report + " (code: "@ + signed_decimal(code as int) + ")"@
}

/// Completes `report` to a message that ends in `code`.
fn message_with_code(report: &str, code: i32) -> (r: String)
    ensures
        r@ == with_code(report@, code),
{
    let mut out = report.to_owned();
    out.append(" (code: ");
    push_signed_decimal(&mut out, code);
    out.append(")");
    out
}

impl Error {
    /// The error in words.
    pub open spec fn spec_message(self) -> Seq<char> {
        match self {
            Error::Setup(SetupError::InteriorNul) => "string holds a NUL character"@,
            Error::Setup(SetupError::Refused { stage, code }) => with_code(
                refusal_report(stage),
                code,
            ),
            Error::Native { stage, code } => with_code(native_report(stage), code),
            Error::Build(field) => "`"@ + field.spec_name() + "` must be initialized"@,
        }
    }

    /// Puts the error in words.
    pub fn message(&self) -> (r: String)
        ensures
            r@ == self.spec_message(),
    {
        match self {
            Error::Setup(SetupError::InteriorNul) => "string holds a NUL character".to_owned(),
            Error::Setup(SetupError::Refused { stage, code }) => {
                let report = match stage {
                    Stage::Browse => "could not browse services",
                    Stage::Resolve => "could not resolve service",
                    Stage::GetAddressInfo => "could not get address info",
                };
                message_with_code(report, *code)
            },
            Error::Native { stage, code } => {
                let report = match stage {
                    Stage::Browse => "browse_callback() reported error",
                    Stage::Resolve => "error reported by resolve_callback:",
                    Stage::GetAddressInfo => "get_address_info_callback() reported error",
                };
                message_with_code(report, *code)
            },
            Error::Build(field) => {
                let mut out = "`".to_owned();
                out.append(field.name());
                out.append("` must be initialized");
                out
            },
        }
    }

    /// Whether this is a setup error.
    pub fn is_setup(&self) -> (r: bool)
        ensures
            r == (*self is Setup),
    {
        match self {
            Error::Setup(_) => true,
            _ => false,
        }
    }
}

/// What a registration with the daemon amounts to, given the code that the
/// daemon returned for it: zero is acceptance, anything else a setup error.
pub open spec fn registration_outcome(stage: Stage, code: i32) -> Result<(), Error> {
    if code == 0 {
        Ok(())
    } else {
        Err(Error::Setup(SetupError::Refused { stage, code }))
    }
}

/// Turns the code that the daemon returned for a registration into a result.
/// Acceptance means that the request was taken, not that it has completed.
pub fn registration_result(stage: Stage, code: i32) -> (r: Result<(), Error>)
    ensures
        r == registration_outcome(stage, code),
{
    if code == 0 {
        Ok(())
    } else {
        Err(Error::Setup(SetupError::Refused { stage, code }))
    }
}

} // verus!

//! The check of one service: from what the service manager answered to a
//! finding, or to the error that stops the run.
//!
//! Asking the manager is the caller's part. It tries to resolve the unit
//! and, if that works, reads the unit's three state fields; what came of it
//! is a [`ManagerReply`], and [`check_service`] decides what it means.

use crate::finding::{classified, classify, Finding, ServiceFinding, UnitState};
use vstd::prelude::*;

verus! {

/// The error name by which the service manager says that it knows no unit
/// of the name it was asked for.
pub const NO_SUCH_UNIT: &'static str = "org.freedesktop.systemd1.NoSuchUnit";

/// An error of the management bus, reduced to the two texts that it may
/// carry: its name, by which kinds of errors are told apart, and a message
/// for the operator.
#[derive(Debug, Clone, PartialEq, Eq)]
pub struct BusError {
    pub name: Option<String>,
    pub message: Option<String>,
}

impl BusError {
    /// Whether the error carries the name that stands for a missing unit.
    pub open spec fn is_no_such_unit(&self) -> bool {
        self.name matches Some(name) && name@ == NO_SUCH_UNIT@
    }

    /// Whether the error says that the manager knows no such unit.
    pub fn names_missing_unit(&self) -> (missing: bool)
        ensures
            missing == self.is_no_such_unit(),
    {
        match &self.name {
            Some(name) => {
                let wanted = String::from_str(NO_SUCH_UNIT);
                *name == wanted
            },
            None => false,
        }
    }
}

/// What the service manager answered when it was asked about one unit.
#[derive(Debug, Clone, PartialEq, Eq)]
pub enum ManagerReply {
    /// The unit resolved, and its three state fields were read.
    Loaded(UnitState),
    /// The manager did not resolve the unit.
    ResolveFailed(BusError),
    /// The unit resolved, but one of its state fields could not be read.
    ReadFailed(BusError),
}

/// Why a check could not be made. Either way the checking path itself is
/// broken, and nothing is known of the service.
#[derive(Debug, Clone, PartialEq, Eq)]
pub enum CheckError {
    /// Resolving the unit failed, and not because the unit is missing.
    Resolve(BusError),
    /// Reading a state field of the resolved unit failed.
    Read(BusError),
}

/// What [`check_service`] returns for a reply.
pub open spec fn checked(
    service_name: Seq<char>,
    reply: ManagerReply,
) -> Result<Finding, CheckError> {
    match reply {
        ManagerReply::Loaded(state) => Ok(
            classified(service_name, state.active_state@, state.sub_state@, state.result@),
        ),
        ManagerReply::ResolveFailed(error) => if error.is_no_such_unit() {
            Ok(Finding::NotLoaded { name: service_name })
        } else {
            Err(CheckError::Resolve(error))
        },
        ManagerReply::ReadFailed(error) => Err(CheckError::Read(error)),
    }
}

/// Decides what the manager's reply means for the service.
///
/// A unit that the manager does not know is a finding, `NotLoaded`, and
/// never an error: a service that was configured but never installed does
/// not stop the run. A loaded unit is classified by its state fields. Every
/// other failure, of resolving or of reading, is handed back as it came.
pub fn check_service(
    service_name: &str,
    reply: ManagerReply,
) -> (outcome: Result<ServiceFinding, CheckError>)
    ensures
        match outcome {
            Ok(finding) => checked(service_name@, reply) == Ok::<Finding, CheckError>(finding@),
            Err(error) => checked(service_name@, reply) == Err::<Finding, CheckError>(error),
        },
        (reply matches ManagerReply::ResolveFailed(error) && error.is_no_such_unit()) ==> (outcome
            matches Ok(finding) && finding@ == (Finding::NotLoaded { name: service_name@ })),
{
    match reply {
        ManagerReply::Loaded(state) => Ok(classify(service_name, state)),
        ManagerReply::ResolveFailed(error) => {
            if error.names_missing_unit() {
                Ok(ServiceFinding::NotLoaded { name: String::from_str(service_name) })
            } else {
                Err(CheckError::Resolve(error))
            }
        },
        ManagerReply::ReadFailed(error) => Err(CheckError::Read(error)),
    }
}

} // verus!

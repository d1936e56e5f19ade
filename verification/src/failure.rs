//! What can go wrong in one run, and how each failure is classed.

use vstd::prelude::*;
use vstd::std_specs::convert::FromSpecImpl;

verus! {

/// `zbus::Error`, carried as it is.
#[verifier::external_type_specification]
#[verifier::external_body]
pub struct ExBusError(zbus::Error);

/// `zbus::fdo::Error`, carried as it is.
#[verifier::external_type_specification]
#[verifier::external_body]
pub struct ExBusCallError(zbus::fdo::Error);

/// The three ways in which a run fails.
#[derive(Clone, Copy, Debug, PartialEq, Eq, Structural)]
pub enum FailureKind {
    /// The bus could not be reached, or refused the session.
    Connection,
    /// The service did not answer the enumeration call with an object graph.
    RemoteCall,
    /// A value could not be written as JSON.
    Serialization,
}

/// A failure, with the report of the library that met it.
#[derive(Debug)]
pub enum Failure {
    /// The bus could not be reached, or refused the session.
    Connection(zbus::Error),
    /// The service did not answer the enumeration call with an object graph.
    RemoteCall(zbus::fdo::Error),
    /// A value could not be written as JSON.
    Serialization(serde_json::Error),
}

impl Failure {
    /// The class of this failure.
    pub open spec fn kind_spec(&self) -> FailureKind {
        match self {
            Failure::Connection(_) => FailureKind::Connection,
            Failure::RemoteCall(_) => FailureKind::RemoteCall,
            Failure::Serialization(_) => FailureKind::Serialization,
        }
    }

    /// The class of this failure.
    #[verifier::when_used_as_spec(kind_spec)]
    pub fn kind(&self) -> (kind: FailureKind)
        ensures
            kind == self.kind_spec(),
    {
        match self {
            Failure::Connection(_) => FailureKind::Connection,
            Failure::RemoteCall(_) => FailureKind::RemoteCall,
            Failure::Serialization(_) => FailureKind::Serialization,
        }
    }
}

impl From<zbus::Error> for Failure {
    fn from(value: zbus::Error) -> (failure: Self) {
        Failure::Connection(value)
    }
}

impl FromSpecImpl<zbus::Error> for Failure {
    open spec fn obeys_from_spec() -> bool {
        true
    }

    open spec fn from_spec(value: zbus::Error) -> Self {
        Failure::Connection(value)
    }
}

impl From<zbus::fdo::Error> for Failure {
    fn from(value: zbus::fdo::Error) -> (failure: Self) {
        Failure::RemoteCall(value)
    }
}

impl FromSpecImpl<zbus::fdo::Error> for Failure {
    open spec fn obeys_from_spec() -> bool {
        true
    }

    open spec fn from_spec(value: zbus::fdo::Error) -> Self {
        Failure::RemoteCall(value)
    }
}

impl From<serde_json::Error> for Failure {
    fn from(value: serde_json::Error) -> (failure: Self) {
        Failure::Serialization(value)
    }
}

impl FromSpecImpl<serde_json::Error> for Failure {
    open spec fn obeys_from_spec() -> bool {
        true
    }

    open spec fn from_spec(value: serde_json::Error) -> Self {
        Failure::Serialization(value)
    }
}

} // verus!

//! The failure taxonomy: protocol-domain errors flowing back through the
//! correlation path, and the local error of a typed extraction.

use vstd::prelude::*;

verus! {

/// A failure reported by the network while servicing a request.
///
/// The taxonomy is deliberately small at this layer: richer error payloads
/// belong to the collaborators that produce them.
#[derive(Clone, Copy, PartialEq, Eq, Hash, Debug)]
pub enum Error {
    /// The requester lacks the permission the operation needs.
    AccessDenied,
    /// The addressed data does not exist.
    NoSuchData,
    /// The addressed entry does not exist.
    NoSuchEntry,
    /// The operation is not valid against the addressed data.
    InvalidOperation,
    /// The paying balance cannot cover the debit.
    InsufficientBalance,
}

impl Error {
    /// The tag under which this error is rendered in logs.
    pub open spec fn spec_name(self) -> Seq<char> {
        match self {
            Error::AccessDenied => "AccessDenied"@,
            Error::NoSuchData => "NoSuchData"@,
            Error::NoSuchEntry => "NoSuchEntry"@,
            Error::InvalidOperation => "InvalidOperation"@,
            Error::InsufficientBalance => "InsufficientBalance"@,
        }
    }

    /// Returns the tag under which this error is rendered in logs.
    pub fn name(&self) -> (r: &'static str)
        ensures
            r@ == self.spec_name(),
    {
        match self {
            Error::AccessDenied => "AccessDenied",
            Error::NoSuchData => "NoSuchData",
            Error::NoSuchEntry => "NoSuchEntry",
            Error::InvalidOperation => "InvalidOperation",
            Error::InsufficientBalance => "InsufficientBalance",
        }
    }
}

/// Why a Cmd failed: the authorisation step, the data operation itself, or
/// one of the transfer-protocol phases.
#[derive(Clone, Copy, PartialEq, Eq, Hash, Debug)]
pub enum CmdError {
    /// The authorisation step rejected the cmd.
    Auth(Error),
    /// The data operation failed.
    Data(Error),
    /// A transfer-protocol phase failed; see [`TransferError`].
    Transfer(TransferError),
}

/// Which phase of the transfer protocol failed.
///
/// The phase matters to a retrying client: a validation failure happened
/// before anything was committed, while a propagation failure may leave the
/// transfer partially committed network-side.
#[derive(Clone, Copy, PartialEq, Eq, Hash, Debug)]
pub enum TransferError {
    /// The error of a ValidateTransfer cmd.
    TransferValidation(Error),
    /// The error of a RegisterTransfer cmd.
    TransferRegistration(Error),
    /// The error of propagation of a TransferRegistered event.
    TransferPropagation(Error),
}

/// Error of an attempted typed extraction from a `QueryResponse`.
///
/// Both variants are local, recoverable-by-caller conditions.
#[derive(Clone, Copy, PartialEq, Eq, Hash, Debug)]
pub enum TryFromError {
    /// Wrong variant found in `QueryResponse` for the requested payload type.
    WrongType,
    /// The `QueryResponse` matched but carried an error.
    Response(Error),
}

} // verus!

//! Classification of the permission check a request must satisfy.
//!
//! This layer only defines the taxonomy; evaluating a permission against it
//! is an external collaborator's responsibility.

use vstd::prelude::*;

verus! {

/// The kind of authorisation needed for a request.
#[derive(Clone, Copy, PartialEq, Eq, Hash, Debug)]
pub enum AuthorisationKind {
    /// Authorisation for data requests.
    Data(DataAuthKind),
    /// Authorisation for money requests.
    Money(MoneyAuthKind),
    /// Miscellaneous authorisation kinds.
    Misc(MiscAuthKind),
    /// When none is required.
    NotRequired,
}

/// Authorisation for data requests.
#[derive(Clone, Copy, PartialEq, Eq, Hash, Debug)]
pub enum DataAuthKind {
    /// Read of public data.
    PublicRead,
    /// Read of private data.
    PrivateRead,
    /// Write of data or metadata.
    Write,
}

/// Authorisation for money requests.
#[derive(Clone, Copy, PartialEq, Eq, Hash, Debug)]
pub enum MoneyAuthKind {
    /// Request to read a key's balance.
    ReadBalance,
    /// Request to read a key's transfer history.
    ReadHistory,
    /// Request to transfer money from a key.
    Transfer,
}

/// Miscellaneous authorisation kinds.
#[derive(Clone, Copy, PartialEq, Eq, Hash, Debug)]
pub enum MiscAuthKind {
    /// Request to manage app keys.
    ManageAppKeys,
    /// Request to mutate data and transfer money from a key.
    WriteAndTransfer,
}

} // verus!

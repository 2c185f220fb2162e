//! Payload types carried by query responses.
//!
//! The business logic behind each payload (data-store operations, balances,
//! account packets) is a collaborator's concern: this layer carries the
//! values opaquely, so each type here holds the plain shape that crosses the
//! messaging boundary and nothing of the collaborator's behaviour.

use vstd::prelude::*;
use crate::ids::XorName;
use crate::sender::PublicKey;

verus! {

/// An immutable blob of data stored at a name.
#[derive(Clone, PartialEq, Eq, Hash, Debug)]
pub struct Blob {
    ///
    pub data: Vec<u8>,
}

/// One key-value entry of a map.
#[derive(Clone, PartialEq, Eq, Hash, Debug)]
pub struct MapEntry {
    ///
    pub key: Vec<u8>,
    ///
    pub value: Vec<u8>,
}

/// A mutable map stored at a name, with its entries.
#[derive(Clone, PartialEq, Eq, Hash, Debug)]
pub struct MapData {
    ///
    pub name: XorName,
    /// Type tag chosen by the application.
    pub tag: u64,
    ///
    pub data: Vec<MapEntry>,
}

/// The entries of a map, as reported by the network.
#[derive(Clone, PartialEq, Eq, Hash, Debug)]
pub struct MapEntries {
    ///
    pub entries: Vec<MapEntry>,
}

/// One value of a map.
#[derive(Clone, PartialEq, Eq, Hash, Debug)]
pub struct MapValue {
    ///
    pub data: Vec<u8>,
}

/// The values of a map, as reported by the network.
#[derive(Clone, PartialEq, Eq, Hash, Debug)]
pub struct MapValues {
    ///
    pub values: Vec<MapValue>,
}

/// What one user may do to a map.
#[derive(Clone, Copy, PartialEq, Eq, Hash, Debug)]
pub struct MapPermissionSet {
    ///
    pub read: bool,
    ///
    pub insert: bool,
    ///
    pub update: bool,
    ///
    pub delete: bool,
    ///
    pub manage_permissions: bool,
}

/// One entry of a sequence.
#[derive(Clone, PartialEq, Eq, Hash, Debug)]
pub struct SequenceEntry {
    ///
    pub data: Vec<u8>,
}

/// An append-only sequence stored at a name, with its entries.
#[derive(Clone, PartialEq, Eq, Hash, Debug)]
pub struct Sequence {
    ///
    pub name: XorName,
    /// Type tag chosen by the application.
    pub tag: u64,
    ///
    pub entries: Vec<SequenceEntry>,
}

/// The owner of a sequence at a point of its history.
#[derive(Clone, Copy, PartialEq, Eq, Hash, Debug)]
pub struct SequenceOwner {
    ///
    pub public_key: PublicKey,
    /// How many entries existed when this owner was set.
    pub entries_index: u64,
    /// How many permission changes existed when this owner was set.
    pub permissions_index: u64,
}

/// What one user may do to a sequence.
#[derive(Clone, Copy, PartialEq, Eq, Hash, Debug)]
pub struct SequenceUserPermissions {
    ///
    pub can_append: bool,
    ///
    pub can_manage_permissions: bool,
}

/// The per-user permission listing of a sequence.
#[derive(Clone, PartialEq, Eq, Hash, Debug)]
pub struct SequencePermissions {
    ///
    pub users: Vec<(PublicKey, SequenceUserPermissions)>,
}

/// An amount of money, in indivisible nano units.
#[derive(Clone, Copy, PartialEq, Eq, Hash, Debug)]
pub struct Money {
    ///
    pub nanos: u64,
}

/// The public key set of the section replicas that guard a balance.
#[derive(Clone, PartialEq, Eq, Hash, Debug)]
pub struct ReplicaPublicKeySet {
    /// How many replica signatures a proof needs.
    pub threshold: u64,
    ///
    pub keys: Vec<PublicKey>,
}

/// One event of a key's transfer history, carried in its wire form.
///
/// Its internal structure belongs to the replica-agreement collaborator.
#[derive(Clone, PartialEq, Eq, Hash, Debug)]
pub struct ReplicaEvent {
    ///
    pub data: Vec<u8>,
}

/// What an authorised app may do on the owner's behalf.
#[derive(Clone, Copy, PartialEq, Eq, Hash, Debug)]
pub struct AppPermissions {
    ///
    pub transfer_money: bool,
    ///
    pub perform_mutations: bool,
    ///
    pub get_balance: bool,
}

} // verus!

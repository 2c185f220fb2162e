//! Query responses and their typed extraction.
//!
//! A [`QueryResponse`] is a flat union of one variant per queryable resource
//! kind, each wrapping a `Result` for its specific payload type. Typed
//! extraction narrows a response to a concrete payload: a matching variant
//! wrapping success yields the payload, a matching variant wrapping failure
//! yields [`TryFromError::Response`], and any other variant yields
//! [`TryFromError::WrongType`]. Each target payload type gets its own
//! extraction function, bound to exactly the variants that can legitimately
//! produce it.

use vstd::prelude::*;
use vstd::string::StringExecFns;
use crate::errors::{Error, TryFromError};
use crate::payload::{
    AppPermissions, Blob, MapData, MapEntries, MapPermissionSet, MapValue, MapValues, Money,
    ReplicaEvent, ReplicaPublicKeySet, Sequence, SequenceEntry, SequenceOwner,
    SequencePermissions, SequenceUserPermissions,
};
use crate::sender::{PublicKey, Signature};

verus! {

/// Terminal result of a query, one variant per queryable resource kind.
///
/// Exactly one variant is populated per response; failure and success share
/// the same variant, discriminated by the wrapped result.
#[derive(Clone, PartialEq, Eq, Hash, Debug)]
pub enum QueryResponse {
    /// Get Blob.
    GetBlob(Result<Blob, Error>),
    /// Get Map.
    GetMap(Result<MapData, Error>),
    /// Get Map shell (the map without its entries).
    GetMapShell(Result<MapData, Error>),
    /// Get Map version.
    GetMapVersion(Result<u64, Error>),
    /// List all Map entries (key-value pairs).
    ListMapEntries(Result<MapEntries, Error>),
    /// List all Map keys.
    ListMapKeys(Result<Vec<Vec<u8>>, Error>),
    /// List all Map values.
    ListMapValues(Result<MapValues, Error>),
    /// Get Map permissions for a user.
    ListMapUserPermissions(Result<MapPermissionSet, Error>),
    /// List all Map permissions.
    ListMapPermissions(Result<Vec<(PublicKey, MapPermissionSet)>, Error>),
    /// Get Map value.
    GetMapValue(Result<MapValue, Error>),
    /// Get Sequence.
    GetSequence(Result<Sequence, Error>),
    /// Get Sequence owner.
    GetSequenceOwner(Result<SequenceOwner, Error>),
    /// Get Sequence entries from a range.
    GetSequenceRange(Result<Vec<SequenceEntry>, Error>),
    /// Get Sequence last entry.
    GetSequenceLastEntry(Result<(u64, SequenceEntry), Error>),
    /// List all Sequence permissions.
    GetSequencePermissions(Result<SequencePermissions, Error>),
    /// Get Sequence permissions for a user.
    GetSequenceUserPermissions(Result<SequenceUserPermissions, Error>),
    /// Get replica keys.
    GetReplicaKeys(Result<ReplicaPublicKeySet, Error>),
    /// Get key balance.
    GetBalance(Result<Money, Error>),
    /// Get key transfer history.
    GetHistory(Result<Vec<ReplicaEvent>, Error>),
    /// Get an encrypted account packet and the signature over it.
    GetAccount(Result<(Vec<u8>, Signature), Error>),
    /// Get the list of authorised app keys and the version of the container.
    ListAuthKeysAndVersion(Result<(Vec<(PublicKey, AppPermissions)>, u64), Error>),
}

/// How the wrapped result of one response variant is rendered in logs: the
/// error value for a failure, a compact placeholder for a success, so large
/// payloads never reach the log.
pub open spec fn spec_result_render<T>(res: Result<T, Error>) -> Seq<char> {
    match res {
        Ok(_) => "Success"@,
        Err(e) => e.spec_name(),
    }
}

/// Renders the wrapped result of a response variant: the error tag for a
/// failure, a compact placeholder for a success.
fn render_result<T>(res: &Result<T, Error>) -> (r: &'static str)
    ensures
        r@ == spec_result_render(*res),
{
    match res {
        Ok(_) => "Success",
        Err(e) => e.name(),
    }
}

impl QueryResponse {
    /// The human-readable rendering of this response: the variant name and
    /// the rendering of its wrapped result.
    pub open spec fn spec_debug_render(self) -> Seq<char> {
        match self {
            QueryResponse::GetBlob(res) => "QueryResponse::GetBlob("@ + spec_result_render(
                res,
            ) + ")"@,
            QueryResponse::GetMap(res) => "QueryResponse::GetMap("@ + spec_result_render(
                res,
            ) + ")"@,
            QueryResponse::GetMapShell(res) => "QueryResponse::GetMapShell("@ + spec_result_render(
                res,
            ) + ")"@,
            QueryResponse::GetMapVersion(res) => "QueryResponse::GetMapVersion("@
                + spec_result_render(res) + ")"@,
            QueryResponse::ListMapEntries(res) => "QueryResponse::ListMapEntries("@
                + spec_result_render(res) + ")"@,
            QueryResponse::ListMapKeys(res) => "QueryResponse::ListMapKeys("@ + spec_result_render(
                res,
            ) + ")"@,
            QueryResponse::ListMapValues(res) => "QueryResponse::ListMapValues("@
                + spec_result_render(res) + ")"@,
            QueryResponse::ListMapUserPermissions(res) => "QueryResponse::ListMapUserPermissions("@
                + spec_result_render(res) + ")"@,
            QueryResponse::ListMapPermissions(res) => "QueryResponse::ListMapPermissions("@
                + spec_result_render(res) + ")"@,
            QueryResponse::GetMapValue(res) => "QueryResponse::GetMapValue("@ + spec_result_render(
                res,
            ) + ")"@,
            QueryResponse::GetSequence(res) => "QueryResponse::GetSequence("@ + spec_result_render(
                res,
            ) + ")"@,
            QueryResponse::GetSequenceOwner(res) => "QueryResponse::GetSequenceOwner("@
                + spec_result_render(res) + ")"@,
            QueryResponse::GetSequenceRange(res) => "QueryResponse::GetSequenceRange("@
                + spec_result_render(res) + ")"@,
            QueryResponse::GetSequenceLastEntry(res) => "QueryResponse::GetSequenceLastEntry("@
                + spec_result_render(res) + ")"@,
            QueryResponse::GetSequencePermissions(res) => "QueryResponse::GetSequencePermissions("@
                + spec_result_render(res) + ")"@,
            QueryResponse::GetSequenceUserPermissions(res) => (
            "QueryResponse::GetSequenceUserPermissions("@ + spec_result_render(res) + ")"@),
            QueryResponse::GetReplicaKeys(res) => "QueryResponse::GetReplicaKeys("@
                + spec_result_render(res) + ")"@,
            QueryResponse::GetBalance(res) => "QueryResponse::GetBalance("@ + spec_result_render(
                res,
            ) + ")"@,
            QueryResponse::GetHistory(res) => "QueryResponse::GetHistory("@ + spec_result_render(
                res,
            ) + ")"@,
            QueryResponse::GetAccount(res) => "QueryResponse::GetAccount("@ + spec_result_render(
                res,
            ) + ")"@,
            QueryResponse::ListAuthKeysAndVersion(res) => "QueryResponse::ListAuthKeysAndVersion("@
                + spec_result_render(res) + ")"@,
        }
    }

    /// Renders this response for logs: the variant name, and the wrapped
    /// error for a failure or a compact placeholder for a success.
    pub fn to_debug_string(&self) -> (r: String)
        ensures
            r@ == self.spec_debug_render(),
    {
        let pieces: (&'static str, &'static str) = match self {
            QueryResponse::GetBlob(res) => ("QueryResponse::GetBlob(", render_result(res)),
            QueryResponse::GetMap(res) => ("QueryResponse::GetMap(", render_result(res)),
            QueryResponse::GetMapShell(res) => ("QueryResponse::GetMapShell(", render_result(res)),
            QueryResponse::GetMapVersion(res) => (
                "QueryResponse::GetMapVersion(",
                render_result(res),
            ),
            QueryResponse::ListMapEntries(res) => (
                "QueryResponse::ListMapEntries(",
                render_result(res),
            ),
            QueryResponse::ListMapKeys(res) => ("QueryResponse::ListMapKeys(", render_result(res)),
            QueryResponse::ListMapValues(res) => (
                "QueryResponse::ListMapValues(",
                render_result(res),
            ),
            QueryResponse::ListMapUserPermissions(res) => (
                "QueryResponse::ListMapUserPermissions(",
                render_result(res),
            ),
            QueryResponse::ListMapPermissions(res) => (
                "QueryResponse::ListMapPermissions(",
                render_result(res),
            ),
            QueryResponse::GetMapValue(res) => ("QueryResponse::GetMapValue(", render_result(res)),
            QueryResponse::GetSequence(res) => ("QueryResponse::GetSequence(", render_result(res)),
            QueryResponse::GetSequenceOwner(res) => (
                "QueryResponse::GetSequenceOwner(",
                render_result(res),
            ),
            QueryResponse::GetSequenceRange(res) => (
                "QueryResponse::GetSequenceRange(",
                render_result(res),
            ),
            QueryResponse::GetSequenceLastEntry(res) => (
                "QueryResponse::GetSequenceLastEntry(",
                render_result(res),
            ),
            QueryResponse::GetSequencePermissions(res) => (
                "QueryResponse::GetSequencePermissions(",
                render_result(res),
            ),
            QueryResponse::GetSequenceUserPermissions(res) => (
                "QueryResponse::GetSequenceUserPermissions(",
                render_result(res),
            ),
            QueryResponse::GetReplicaKeys(res) => (
                "QueryResponse::GetReplicaKeys(",
                render_result(res),
            ),
            QueryResponse::GetBalance(res) => ("QueryResponse::GetBalance(", render_result(res)),
            QueryResponse::GetHistory(res) => ("QueryResponse::GetHistory(", render_result(res)),
            QueryResponse::GetAccount(res) => ("QueryResponse::GetAccount(", render_result(res)),
            QueryResponse::ListAuthKeysAndVersion(res) => (
                "QueryResponse::ListAuthKeysAndVersion(",
                render_result(res),
            ),
        };
        let mut s = String::new();
        s.append(pieces.0);
        s.append(pieces.1);
        s.append(")");
        proof {
            assert(s@ =~= self.spec_debug_render());
        }
        s
    }
}

/// Extracts the Blob payload.
pub fn try_blob_from(response: QueryResponse) -> (r: Result<Blob, TryFromError>)
    ensures
        response matches QueryResponse::GetBlob(Ok(data)) ==> r == Ok::<Blob, TryFromError>(data),
        response matches QueryResponse::GetBlob(Err(e)) ==> r == Err::<Blob, TryFromError>(
            TryFromError::Response(e),
        ),
        !(response matches QueryResponse::GetBlob(_)) ==> r == Err::<Blob, TryFromError>(
            TryFromError::WrongType,
        ),
{
    match response {
        QueryResponse::GetBlob(Ok(data)) => Ok(data),
        QueryResponse::GetBlob(Err(e)) => Err(TryFromError::Response(e)),
        _ => Err(TryFromError::WrongType),
    }
}

/// Extracts the Map payload; both the full map and its shell narrow to it.
pub fn try_map_from(response: QueryResponse) -> (r: Result<MapData, TryFromError>)
    ensures
        response matches QueryResponse::GetMap(Ok(data)) ==> r == Ok::<MapData, TryFromError>(
            data,
        ),
        response matches QueryResponse::GetMap(Err(e)) ==> r == Err::<MapData, TryFromError>(
            TryFromError::Response(e),
        ),
        response matches QueryResponse::GetMapShell(Ok(data)) ==> r == Ok::<MapData, TryFromError>(
            data,
        ),
        response matches QueryResponse::GetMapShell(Err(e)) ==> r == Err::<MapData, TryFromError>(
            TryFromError::Response(e),
        ),
        !(response matches QueryResponse::GetMap(_)) && !(response
            matches QueryResponse::GetMapShell(_)) ==> r == Err::<MapData, TryFromError>(
            TryFromError::WrongType,
        ),
{
    match response {
        QueryResponse::GetMap(Ok(data)) => Ok(data),
        QueryResponse::GetMap(Err(e)) => Err(TryFromError::Response(e)),
        QueryResponse::GetMapShell(Ok(data)) => Ok(data),
        QueryResponse::GetMapShell(Err(e)) => Err(TryFromError::Response(e)),
        _ => Err(TryFromError::WrongType),
    }
}

/// Extracts the Map version payload.
pub fn try_map_version_from(response: QueryResponse) -> (r: Result<u64, TryFromError>)
    ensures
        response matches QueryResponse::GetMapVersion(Ok(data)) ==> r == Ok::<u64, TryFromError>(
            data,
        ),
        response matches QueryResponse::GetMapVersion(Err(e)) ==> r == Err::<u64, TryFromError>(
            TryFromError::Response(e),
        ),
        !(response matches QueryResponse::GetMapVersion(_)) ==> r == Err::<u64, TryFromError>(
            TryFromError::WrongType,
        ),
{
    match response {
        QueryResponse::GetMapVersion(Ok(data)) => Ok(data),
        QueryResponse::GetMapVersion(Err(e)) => Err(TryFromError::Response(e)),
        _ => Err(TryFromError::WrongType),
    }
}

/// Extracts the Map entries payload.
pub fn try_map_entries_from(response: QueryResponse) -> (r: Result<MapEntries, TryFromError>)
    ensures
        response matches QueryResponse::ListMapEntries(Ok(data)) ==> r == Ok::<
            MapEntries,
            TryFromError,
        >(data),
        response matches QueryResponse::ListMapEntries(Err(e)) ==> r == Err::<
            MapEntries,
            TryFromError,
        >(TryFromError::Response(e)),
        !(response matches QueryResponse::ListMapEntries(_)) ==> r == Err::<
            MapEntries,
            TryFromError,
        >(TryFromError::WrongType),
{
    match response {
        QueryResponse::ListMapEntries(Ok(data)) => Ok(data),
        QueryResponse::ListMapEntries(Err(e)) => Err(TryFromError::Response(e)),
        _ => Err(TryFromError::WrongType),
    }
}

/// Extracts the Map keys payload.
pub fn try_map_keys_from(response: QueryResponse) -> (r: Result<Vec<Vec<u8>>, TryFromError>)
    ensures
        response matches QueryResponse::ListMapKeys(Ok(data)) ==> r == Ok::<
            Vec<Vec<u8>>,
            TryFromError,
        >(data),
        response matches QueryResponse::ListMapKeys(Err(e)) ==> r == Err::<
            Vec<Vec<u8>>,
            TryFromError,
        >(TryFromError::Response(e)),
        !(response matches QueryResponse::ListMapKeys(_)) ==> r == Err::<
            Vec<Vec<u8>>,
            TryFromError,
        >(TryFromError::WrongType),
{
    match response {
        QueryResponse::ListMapKeys(Ok(data)) => Ok(data),
        QueryResponse::ListMapKeys(Err(e)) => Err(TryFromError::Response(e)),
        _ => Err(TryFromError::WrongType),
    }
}

/// Extracts the Map values payload.
pub fn try_map_values_from(response: QueryResponse) -> (r: Result<MapValues, TryFromError>)
    ensures
        response matches QueryResponse::ListMapValues(Ok(data)) ==> r == Ok::<
            MapValues,
            TryFromError,
        >(data),
        response matches QueryResponse::ListMapValues(Err(e)) ==> r == Err::<
            MapValues,
            TryFromError,
        >(TryFromError::Response(e)),
        !(response matches QueryResponse::ListMapValues(_)) ==> r == Err::<
            MapValues,
            TryFromError,
        >(TryFromError::WrongType),
{
    match response {
        QueryResponse::ListMapValues(Ok(data)) => Ok(data),
        QueryResponse::ListMapValues(Err(e)) => Err(TryFromError::Response(e)),
        _ => Err(TryFromError::WrongType),
    }
}

/// Extracts the per-user Map permission set payload.
pub fn try_map_user_permissions_from(response: QueryResponse) -> (r: Result<
    MapPermissionSet,
    TryFromError,
>)
    ensures
        response matches QueryResponse::ListMapUserPermissions(Ok(data)) ==> r == Ok::<
            MapPermissionSet,
            TryFromError,
        >(data),
        response matches QueryResponse::ListMapUserPermissions(Err(e)) ==> r == Err::<
            MapPermissionSet,
            TryFromError,
        >(TryFromError::Response(e)),
        !(response matches QueryResponse::ListMapUserPermissions(_)) ==> r == Err::<
            MapPermissionSet,
            TryFromError,
        >(TryFromError::WrongType),
{
    match response {
        QueryResponse::ListMapUserPermissions(Ok(data)) => Ok(data),
        QueryResponse::ListMapUserPermissions(Err(e)) => Err(TryFromError::Response(e)),
        _ => Err(TryFromError::WrongType),
    }
}

/// Extracts the full Map permission listing payload.
pub fn try_map_permissions_from(response: QueryResponse) -> (r: Result<
    Vec<(PublicKey, MapPermissionSet)>,
    TryFromError,
>)
    ensures
        response matches QueryResponse::ListMapPermissions(Ok(data)) ==> r == Ok::<
            Vec<(PublicKey, MapPermissionSet)>,
            TryFromError,
        >(data),
        response matches QueryResponse::ListMapPermissions(Err(e)) ==> r == Err::<
            Vec<(PublicKey, MapPermissionSet)>,
            TryFromError,
        >(TryFromError::Response(e)),
        !(response matches QueryResponse::ListMapPermissions(_)) ==> r == Err::<
            Vec<(PublicKey, MapPermissionSet)>,
            TryFromError,
        >(TryFromError::WrongType),
{
    match response {
        QueryResponse::ListMapPermissions(Ok(data)) => Ok(data),
        QueryResponse::ListMapPermissions(Err(e)) => Err(TryFromError::Response(e)),
        _ => Err(TryFromError::WrongType),
    }
}

/// Extracts the Map value payload.
pub fn try_map_value_from(response: QueryResponse) -> (r: Result<MapValue, TryFromError>)
    ensures
        response matches QueryResponse::GetMapValue(Ok(data)) ==> r == Ok::<
            MapValue,
            TryFromError,
        >(data),
        response matches QueryResponse::GetMapValue(Err(e)) ==> r == Err::<
            MapValue,
            TryFromError,
        >(TryFromError::Response(e)),
        !(response matches QueryResponse::GetMapValue(_)) ==> r == Err::<MapValue, TryFromError>(
            TryFromError::WrongType,
        ),
{
    match response {
        QueryResponse::GetMapValue(Ok(data)) => Ok(data),
        QueryResponse::GetMapValue(Err(e)) => Err(TryFromError::Response(e)),
        _ => Err(TryFromError::WrongType),
    }
}

/// Extracts the Sequence payload.
pub fn try_sequence_from(response: QueryResponse) -> (r: Result<Sequence, TryFromError>)
    ensures
        response matches QueryResponse::GetSequence(Ok(data)) ==> r == Ok::<
            Sequence,
            TryFromError,
        >(data),
        response matches QueryResponse::GetSequence(Err(e)) ==> r == Err::<
            Sequence,
            TryFromError,
        >(TryFromError::Response(e)),
        !(response matches QueryResponse::GetSequence(_)) ==> r == Err::<Sequence, TryFromError>(
            TryFromError::WrongType,
        ),
{
    match response {
        QueryResponse::GetSequence(Ok(data)) => Ok(data),
        QueryResponse::GetSequence(Err(e)) => Err(TryFromError::Response(e)),
        _ => Err(TryFromError::WrongType),
    }
}

/// Extracts the Sequence owner payload.
pub fn try_sequence_owner_from(response: QueryResponse) -> (r: Result<
    SequenceOwner,
    TryFromError,
>)
    ensures
        response matches QueryResponse::GetSequenceOwner(Ok(data)) ==> r == Ok::<
            SequenceOwner,
            TryFromError,
        >(data),
        response matches QueryResponse::GetSequenceOwner(Err(e)) ==> r == Err::<
            SequenceOwner,
            TryFromError,
        >(TryFromError::Response(e)),
        !(response matches QueryResponse::GetSequenceOwner(_)) ==> r == Err::<
            SequenceOwner,
            TryFromError,
        >(TryFromError::WrongType),
{
    match response {
        QueryResponse::GetSequenceOwner(Ok(data)) => Ok(data),
        QueryResponse::GetSequenceOwner(Err(e)) => Err(TryFromError::Response(e)),
        _ => Err(TryFromError::WrongType),
    }
}

/// Extracts the Sequence range payload.
pub fn try_sequence_range_from(response: QueryResponse) -> (r: Result<
    Vec<SequenceEntry>,
    TryFromError,
>)
    ensures
        response matches QueryResponse::GetSequenceRange(Ok(data)) ==> r == Ok::<
            Vec<SequenceEntry>,
            TryFromError,
        >(data),
        response matches QueryResponse::GetSequenceRange(Err(e)) ==> r == Err::<
            Vec<SequenceEntry>,
            TryFromError,
        >(TryFromError::Response(e)),
        !(response matches QueryResponse::GetSequenceRange(_)) ==> r == Err::<
            Vec<SequenceEntry>,
            TryFromError,
        >(TryFromError::WrongType),
{
    match response {
        QueryResponse::GetSequenceRange(Ok(data)) => Ok(data),
        QueryResponse::GetSequenceRange(Err(e)) => Err(TryFromError::Response(e)),
        _ => Err(TryFromError::WrongType),
    }
}

/// Extracts the last entry of a Sequence, with its index.
pub fn try_sequence_last_entry_from(response: QueryResponse) -> (r: Result<
    (u64, SequenceEntry),
    TryFromError,
>)
    ensures
        response matches QueryResponse::GetSequenceLastEntry(Ok(data)) ==> r == Ok::<
            (u64, SequenceEntry),
            TryFromError,
        >(data),
        response matches QueryResponse::GetSequenceLastEntry(Err(e)) ==> r == Err::<
            (u64, SequenceEntry),
            TryFromError,
        >(TryFromError::Response(e)),
        !(response matches QueryResponse::GetSequenceLastEntry(_)) ==> r == Err::<
            (u64, SequenceEntry),
            TryFromError,
        >(TryFromError::WrongType),
{
    match response {
        QueryResponse::GetSequenceLastEntry(Ok(data)) => Ok(data),
        QueryResponse::GetSequenceLastEntry(Err(e)) => Err(TryFromError::Response(e)),
        _ => Err(TryFromError::WrongType),
    }
}

/// Extracts the Sequence permission listing payload.
pub fn try_sequence_permissions_from(response: QueryResponse) -> (r: Result<
    SequencePermissions,
    TryFromError,
>)
    ensures
        response matches QueryResponse::GetSequencePermissions(Ok(data)) ==> r == Ok::<
            SequencePermissions,
            TryFromError,
        >(data),
        response matches QueryResponse::GetSequencePermissions(Err(e)) ==> r == Err::<
            SequencePermissions,
            TryFromError,
        >(TryFromError::Response(e)),
        !(response matches QueryResponse::GetSequencePermissions(_)) ==> r == Err::<
            SequencePermissions,
            TryFromError,
        >(TryFromError::WrongType),
{
    match response {
        QueryResponse::GetSequencePermissions(Ok(data)) => Ok(data),
        QueryResponse::GetSequencePermissions(Err(e)) => Err(TryFromError::Response(e)),
        _ => Err(TryFromError::WrongType),
    }
}

/// Extracts the per-user Sequence permissions payload.
pub fn try_sequence_user_permissions_from(response: QueryResponse) -> (r: Result<
    SequenceUserPermissions,
    TryFromError,
>)
    ensures
        response matches QueryResponse::GetSequenceUserPermissions(Ok(data)) ==> r == Ok::<
            SequenceUserPermissions,
            TryFromError,
        >(data),
        response matches QueryResponse::GetSequenceUserPermissions(Err(e)) ==> r == Err::<
            SequenceUserPermissions,
            TryFromError,
        >(TryFromError::Response(e)),
        !(response matches QueryResponse::GetSequenceUserPermissions(_)) ==> r == Err::<
            SequenceUserPermissions,
            TryFromError,
        >(TryFromError::WrongType),
{
    match response {
        QueryResponse::GetSequenceUserPermissions(Ok(data)) => Ok(data),
        QueryResponse::GetSequenceUserPermissions(Err(e)) => Err(TryFromError::Response(e)),
        _ => Err(TryFromError::WrongType),
    }
}

/// Extracts the replica key set payload.
pub fn try_replica_keys_from(response: QueryResponse) -> (r: Result<
    ReplicaPublicKeySet,
    TryFromError,
>)
    ensures
        response matches QueryResponse::GetReplicaKeys(Ok(data)) ==> r == Ok::<
            ReplicaPublicKeySet,
            TryFromError,
        >(data),
        response matches QueryResponse::GetReplicaKeys(Err(e)) ==> r == Err::<
            ReplicaPublicKeySet,
            TryFromError,
        >(TryFromError::Response(e)),
        !(response matches QueryResponse::GetReplicaKeys(_)) ==> r == Err::<
            ReplicaPublicKeySet,
            TryFromError,
        >(TryFromError::WrongType),
{
    match response {
        QueryResponse::GetReplicaKeys(Ok(data)) => Ok(data),
        QueryResponse::GetReplicaKeys(Err(e)) => Err(TryFromError::Response(e)),
        _ => Err(TryFromError::WrongType),
    }
}

/// Extracts the balance payload.
pub fn try_balance_from(response: QueryResponse) -> (r: Result<Money, TryFromError>)
    ensures
        response matches QueryResponse::GetBalance(Ok(data)) ==> r == Ok::<Money, TryFromError>(
            data,
        ),
        response matches QueryResponse::GetBalance(Err(e)) ==> r == Err::<Money, TryFromError>(
            TryFromError::Response(e),
        ),
        !(response matches QueryResponse::GetBalance(_)) ==> r == Err::<Money, TryFromError>(
            TryFromError::WrongType,
        ),
{
    match response {
        QueryResponse::GetBalance(Ok(data)) => Ok(data),
        QueryResponse::GetBalance(Err(e)) => Err(TryFromError::Response(e)),
        _ => Err(TryFromError::WrongType),
    }
}

/// Extracts the transfer history payload.
pub fn try_history_from(response: QueryResponse) -> (r: Result<Vec<ReplicaEvent>, TryFromError>)
    ensures
        response matches QueryResponse::GetHistory(Ok(data)) ==> r == Ok::<
            Vec<ReplicaEvent>,
            TryFromError,
        >(data),
        response matches QueryResponse::GetHistory(Err(e)) ==> r == Err::<
            Vec<ReplicaEvent>,
            TryFromError,
        >(TryFromError::Response(e)),
        !(response matches QueryResponse::GetHistory(_)) ==> r == Err::<
            Vec<ReplicaEvent>,
            TryFromError,
        >(TryFromError::WrongType),
{
    match response {
        QueryResponse::GetHistory(Ok(data)) => Ok(data),
        QueryResponse::GetHistory(Err(e)) => Err(TryFromError::Response(e)),
        _ => Err(TryFromError::WrongType),
    }
}

/// Extracts the encrypted account packet and its signature.
pub fn try_account_from(response: QueryResponse) -> (r: Result<(Vec<u8>, Signature), TryFromError>)
    ensures
        response matches QueryResponse::GetAccount(Ok(data)) ==> r == Ok::<
            (Vec<u8>, Signature),
            TryFromError,
        >(data),
        response matches QueryResponse::GetAccount(Err(e)) ==> r == Err::<
            (Vec<u8>, Signature),
            TryFromError,
        >(TryFromError::Response(e)),
        !(response matches QueryResponse::GetAccount(_)) ==> r == Err::<
            (Vec<u8>, Signature),
            TryFromError,
        >(TryFromError::WrongType),
{
    match response {
        QueryResponse::GetAccount(Ok(data)) => Ok(data),
        QueryResponse::GetAccount(Err(e)) => Err(TryFromError::Response(e)),
        _ => Err(TryFromError::WrongType),
    }
}

/// Extracts the authorised-keys listing and its container version.
pub fn try_auth_keys_from(response: QueryResponse) -> (r: Result<
    (Vec<(PublicKey, AppPermissions)>, u64),
    TryFromError,
>)
    ensures
        response matches QueryResponse::ListAuthKeysAndVersion(Ok(data)) ==> r == Ok::<
            (Vec<(PublicKey, AppPermissions)>, u64),
            TryFromError,
        >(data),
        response matches QueryResponse::ListAuthKeysAndVersion(Err(e)) ==> r == Err::<
            (Vec<(PublicKey, AppPermissions)>, u64),
            TryFromError,
        >(TryFromError::Response(e)),
        !(response matches QueryResponse::ListAuthKeysAndVersion(_)) ==> r == Err::<
            (Vec<(PublicKey, AppPermissions)>, u64),
            TryFromError,
        >(TryFromError::WrongType),
{
    match response {
        QueryResponse::ListAuthKeysAndVersion(Ok(data)) => Ok(data),
        QueryResponse::ListAuthKeysAndVersion(Err(e)) => Err(TryFromError::Response(e)),
        _ => Err(TryFromError::WrongType),
    }
}

} // verus!

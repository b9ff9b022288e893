use vstd::prelude::*;

verus! {

/// Why a storage operation failed.
#[derive(Clone, Copy, Debug, PartialEq, Eq, Structural)]
pub enum StorageErrorKind {
    /// `get` was called with a name whose length is not the required
    /// fixed name length; detected locally, before any network traffic.
    SizeMismatch,
    /// The network client reported a failure (including "not found")
    /// during a retrieval, a store, or an owner-key lookup.
    NetworkFailure,
    /// `get` was issued against the dry-run adapter, which never reads
    /// from the network.
    DryRunUnsupported,
    /// Catch-all for invariant violations that should not occur under
    /// normal operation.
    Unexpected,
}

/// The single error type that crosses the storage-contract boundary.
///
/// Every failure, whatever its origin, is expressed as one kind plus the
/// display text of the underlying cause, so the chunking algorithm observes
/// one uniform error type.
#[derive(Debug)]
pub struct BlobStorageError {
    /// The classified cause.
    pub kind: StorageErrorKind,
    /// The display text of the underlying cause, preserved verbatim.
    pub message: String,
}

impl BlobStorageError {
    /// A requested name does not have the required fixed length.
    pub fn size_mismatch() -> (r: Self)
        ensures
            r.kind == StorageErrorKind::SizeMismatch,
            r.message@ == "Requested `name` is incorrect size."@,
    {
        BlobStorageError {
            kind: StorageErrorKind::SizeMismatch,
            message: "Requested `name` is incorrect size.".to_owned(),
        }
    }

    /// Wraps a failure reported by the network client, keeping its display
    /// text intact.
    pub fn network_failure(cause: String) -> (r: Self)
        ensures
            r.kind == StorageErrorKind::NetworkFailure,
            r.message@ == cause@,
    {
        BlobStorageError { kind: StorageErrorKind::NetworkFailure, message: cause }
    }

    /// Retrieval was attempted on the dry-run adapter.
    pub fn dry_run_unsupported() -> (r: Self)
        ensures
            r.kind == StorageErrorKind::DryRunUnsupported,
            r.message@ == "Cannot get from storage since it's a dry run."@,
    {
        BlobStorageError {
            kind: StorageErrorKind::DryRunUnsupported,
            message: "Cannot get from storage since it's a dry run.".to_owned(),
        }
    }

    /// An invariant violation that should not occur under normal operation.
    pub fn unexpected(cause: String) -> (r: Self)
        ensures
            r.kind == StorageErrorKind::Unexpected,
            r.message@ == cause@,
    {
        BlobStorageError { kind: StorageErrorKind::Unexpected, message: cause }
    }

    /// The classified cause of this error.
    pub fn kind(&self) -> (r: StorageErrorKind)
        ensures
            r == self.kind,
    {
        self.kind
    }

    /// The display text of the underlying cause (one level of delegation:
    /// the text is the wrapped cause's own, not a re-wrapping).
    pub fn message(&self) -> (r: &String)
        ensures
            r@ == self.message@,
    {
        &self.message
    }
}

} // verus!

use crate::address::{
    blob_contents, blob_owner_encoding, blob_value, new_private_blob, new_public_blob,
    private_blob_name, public_blob_name, ChunkAddress, OwnerKey, BLOB_NAME_LEN,
};
use crate::errors::{BlobStorageError, StorageErrorKind};
use vstd::prelude::*;
use vstd::slice::slice_to_vec;

verus! {

/// Storage adapter bound to the network: names chunks, validates requested
/// names, prepares blobs for the network client's store operation, and
/// translates the client's answers into the storage contract's terms.
///
/// The network calls themselves (retrieve, store, owner-key lookup) are the
/// caller's: `get_request`/`put_plan` say exactly what to send, and
/// `get_response`/`put_response` say exactly what each answer means.
pub struct BlobStorage {
    /// The identity that private blobs are bound to (the network client's
    /// own public key).
    pub owner: OwnerKey,
    /// True to operate on the Public variant, false for Private.
    pub published: bool,
}

impl BlobStorage {
    /// The name this adapter derives for `data`: a digest of the content
    /// bytes alone for the Public variant, of the content bytes and the
    /// owner key for the Private variant.
    pub open spec fn address_spec(&self, data: Seq<u8>) -> Seq<u8> {
        if self.published {
            public_blob_name(data)
        } else {
            private_blob_name(data, self.owner@)
        }
    }

    /// The name under which `put_plan` binds `data` for storing.
    pub open spec fn put_name_spec(&self, data: Seq<u8>) -> Seq<u8> {
        self.address_spec(data)
    }

    /// Create a new BlobStorage instance.
    pub fn new(owner: OwnerKey, published: bool) -> (r: Self)
        ensures
            r.owner@ == owner@,
            r.published == published,
    {
        BlobStorage { owner, published }
    }

    /// Derive the storage address for `data` without touching the network:
    /// the same name that storing `data` through this adapter would use.
    pub fn generate_address(&self, data: &[u8]) -> (r: Vec<u8>)
        ensures
            r@ == self.address_spec(data@),
            r@.len() == BLOB_NAME_LEN,
    {
        if self.published {
            let (_blob, name) = new_public_blob(slice_to_vec(data));
            name
        } else {
            let (_blob, name) = new_private_blob(slice_to_vec(data), &self.owner);
            name
        }
    }

    /// The local half of `get`: validate the requested name and rebuild the
    /// full address to fetch. A name of the wrong length is rejected here,
    /// with a size-mismatch error, before any network traffic; a name of
    /// the required length always yields the address of this adapter's
    /// variant carrying exactly that name.
    pub fn get_request(&self, name: &[u8]) -> (r: Result<ChunkAddress, BlobStorageError>)
        ensures
            r is Ok <==> name@.len() == BLOB_NAME_LEN,
            r is Ok ==> {
                &&& r.unwrap().public == self.published
                &&& r.unwrap().name@ == name@
                &&& r.unwrap().wf()
            },
            r is Err ==> {
                &&& r.unwrap_err().kind == StorageErrorKind::SizeMismatch
                &&& r.unwrap_err().message@ == "Requested `name` is incorrect size."@
            },
    {
        if name.len() != BLOB_NAME_LEN {
            Err(BlobStorageError::size_mismatch())
        } else {
            Ok(ChunkAddress { public: self.published, name: slice_to_vec(name) })
        }
    }

    /// The answering half of `get`: a retrieved blob yields exactly its raw
    /// content bytes (not a wrapper object); a client failure (including
    /// "not found") is wrapped as a network failure with the cause's
    /// display text preserved.
    pub fn get_response(&self, fetched: Result<safe_nd::Blob, String>) -> (r: Result<
        Vec<u8>,
        BlobStorageError,
    >)
        ensures
            r is Ok <==> fetched is Ok,
            fetched is Ok ==> r.unwrap()@ == blob_contents(fetched.unwrap()),
            r is Err ==> {
                &&& r.unwrap_err().kind == StorageErrorKind::NetworkFailure
                &&& r.unwrap_err().message@ == fetched.unwrap_err()@
            },
    {
        match fetched {
            Ok(blob) => Ok(blob_value(&blob)),
            Err(cause) => Err(BlobStorageError::network_failure(cause)),
        }
    }

    /// The local half of `put`: build the blob to submit to the network
    /// client's store operation, together with the name it will be stored
    /// under. The blob holds exactly `data`, bound to this adapter's owner
    /// when the variant is Private. The `name` argument is informational
    /// only and is deliberately ignored: the canonical address is
    /// recomputed from `data` itself, so the name bound here always equals
    /// `generate_address(data)`.
    pub fn put_plan(&self, _name: Vec<u8>, data: Vec<u8>) -> (r: (safe_nd::Blob, Vec<u8>))
        ensures
            blob_contents(r.0) == data@,
            !self.published ==> blob_owner_encoding(r.0) == self.owner@,
            r.1@ == self.put_name_spec(data@),
            r.1@.len() == BLOB_NAME_LEN,
    {
        if self.published {
            new_public_blob(data)
        } else {
            new_private_blob(data, &self.owner)
        }
    }

    /// The answering half of `put`: success carries no payload; a client
    /// failure is wrapped as a network failure with the cause's display
    /// text preserved.
    pub fn put_response(&self, stored: Result<(), String>) -> (r: Result<(), BlobStorageError>)
        ensures
            r is Ok <==> stored is Ok,
            r is Err ==> {
                &&& r.unwrap_err().kind == StorageErrorKind::NetworkFailure
                &&& r.unwrap_err().message@ == stored.unwrap_err()@
            },
    {
        match stored {
            Ok(()) => Ok(()),
            Err(cause) => Err(BlobStorageError::network_failure(cause)),
        }
    }
}

/// Storage adapter that simulates persistence: `generate_address` is exact,
/// `put` succeeds without writing, `get` always fails. It holds no network
/// handle at all, so no operation of this type can reach the network.
pub struct BlobStorageDryRun {
    /// The identity that private blobs are bound to.
    pub owner: OwnerKey,
    /// True to operate on the Public variant, false for Private.
    pub published: bool,
}

impl BlobStorageDryRun {
    /// The name this adapter derives for `data`; identical to the live
    /// adapter's rule, so a dry run names chunks exactly as a later live
    /// run would.
    pub open spec fn address_spec(&self, data: Seq<u8>) -> Seq<u8> {
        if self.published {
            public_blob_name(data)
        } else {
            private_blob_name(data, self.owner@)
        }
    }

    /// Create a new BlobStorageDryRun instance.
    pub fn new(owner: OwnerKey, published: bool) -> (r: Self)
        ensures
            r.owner@ == owner@,
            r.published == published,
    {
        BlobStorageDryRun { owner, published }
    }

    /// A dry run never reads from the network: every retrieval fails with
    /// the dedicated dry-run error, whatever the requested name.
    pub fn get(&self, _name: &[u8]) -> (r: Result<Vec<u8>, BlobStorageError>)
        ensures
            r is Err,
            r.unwrap_err().kind == StorageErrorKind::DryRunUnsupported,
            r.unwrap_err().message@ == "Cannot get from storage since it's a dry run."@,
    {
        Err(BlobStorageError::dry_run_unsupported())
    }

    /// A dry run persists nothing: every store succeeds with no payload,
    /// whatever the data, so the chunking algorithm can finish and produce
    /// its chunk addresses and datamap.
    pub fn put(&self, _name: Vec<u8>, _data: Vec<u8>) -> (r: Result<(), BlobStorageError>)
        ensures
            r is Ok,
    {
        Ok(())
    }

    /// Derive the storage address for `data`: the same name the live
    /// adapter derives for the same content and owner.
    pub fn generate_address(&self, data: &[u8]) -> (r: Vec<u8>)
        ensures
            r@ == self.address_spec(data@),
            r@.len() == BLOB_NAME_LEN,
    {
        if self.published {
            let (_blob, name) = new_public_blob(slice_to_vec(data));
            name
        } else {
            let (_blob, name) = new_private_blob(slice_to_vec(data), &self.owner);
            name
        }
    }
}

/// Addresses are deterministic: two live adapters with the same variant
/// flag and the same owner key derive the same name for the same content,
/// whatever instance, call, or process computes it.
pub proof fn lemma_generate_address_deterministic(
    a: BlobStorage,
    b: BlobStorage,
    data: Seq<u8>,
)
    requires
        a.published == b.published,
        a.owner@ == b.owner@,
    ensures
        a.address_spec(data) == b.address_spec(data),
{
}

/// A dry run computes exactly the addresses a later live run would: the
/// dry-run and live adapters agree on the name of every content, given the
/// same variant flag and owner key.
pub proof fn lemma_dry_run_address_agrees(
    live: BlobStorage,
    dry: BlobStorageDryRun,
    data: Seq<u8>,
)
    requires
        live.published == dry.published,
        live.owner@ == dry.owner@,
    ensures
        live.address_spec(data) == dry.address_spec(data),
{
}

/// The address implied by a store equals the generated address: the name
/// `put_plan` binds the blob to is the name `generate_address` reports for
/// the same content under the same adapter.
pub proof fn lemma_put_address_consistent(s: BlobStorage, data: Seq<u8>)
    ensures
        s.put_name_spec(data) == s.address_spec(data),
{
}

} // verus!

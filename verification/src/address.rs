use vstd::prelude::*;

verus! {

/// Number of bytes in a blob name on the network.
pub const BLOB_NAME_LEN: usize = 32;

/// The name of the public blob built from exactly these content bytes.
/// It is the fixed-length digest that `safe_nd::PublicBlob::new` computes;
/// it depends on the content bytes alone.
pub uninterp spec fn public_blob_name(data: Seq<u8>) -> Seq<u8>;

/// The name of the private blob built from these content bytes and the
/// owner key whose canonical encoding is `owner`. It is the fixed-length
/// digest that `safe_nd::PrivateBlob::new` computes; it depends on the
/// content bytes and the owner key alone.
pub uninterp spec fn private_blob_name(data: Seq<u8>, owner: Seq<u8>) -> Seq<u8>;

/// The content bytes a blob holds: what `safe_nd::Blob::value` hands back.
/// The blob constructors fix it to the content they were built from, so a
/// retrieved blob's bytes can be traced back to what was stored.
pub uninterp spec fn blob_contents(b: safe_nd::Blob) -> Seq<u8>;

/// The canonical encoding of the owner a private blob is bound to (the
/// same encoding `OwnerKey` carries). Meaningful only for blobs built as
/// private; a public blob has no owner and nothing is stated of it.
pub uninterp spec fn blob_owner_encoding(b: safe_nd::Blob) -> Seq<u8>;

#[verifier::external_type_specification]
#[verifier::external_body]
pub struct ExPublicKey(safe_nd::PublicKey);

#[verifier::external_type_specification]
#[verifier::external_body]
pub struct ExBlob(safe_nd::Blob);

/// The identity that private blobs are bound to: a network public key
/// together with its canonical encoding. The encoding is what contracts
/// speak of (it determines the key, tag and key bytes both included), while
/// the key itself is what the network types consume.
pub struct OwnerKey {
    key: safe_nd::PublicKey,
    bytes: Vec<u8>,
}

impl View for OwnerKey {
    type V = Seq<u8>;

    closed spec fn view(&self) -> Seq<u8> {
        self.bytes@
    }
}

impl OwnerKey {
    /// Relies on bincode::serialize: the canonical encoding of
    /// `safe_nd::PublicKey`, injective over keys (the variant tag and the
    /// key bytes are both encoded), so equal encodings mean equal keys.
    #[verifier::external_body]
    pub fn from_network_key(key: safe_nd::PublicKey) -> (r: OwnerKey) {
        // Serializing an in-memory key enum to a Vec cannot fail in
        // bincode: the Err arm is unreachable and only avoids a panic path.
        let bytes = match bincode::serialize(&key) {
            Ok(b) => b,
            Err(_) => Vec::new(),
        };
        OwnerKey { key, bytes }
    }
}

/// A full blob address: the variant tag paired with a fixed-length name.
/// This is the library's model of `safe_nd::BlobAddress`; the two variants
/// with the same name are distinct addresses because the tag differs.
#[derive(Debug)]
pub struct ChunkAddress {
    /// True for the Public variant, false for Private.
    pub public: bool,
    /// The fixed-length name.
    pub name: Vec<u8>,
}

impl ChunkAddress {
    /// A well-formed address carries a name of exactly the required length.
    pub open spec fn wf(&self) -> bool {
        self.name@.len() == BLOB_NAME_LEN
    }
}

/// Relies on `safe_nd::PublicBlob::new` and `safe_nd::Blob::name`: builds
/// the public blob holding exactly `data` and returns it with its network
/// name, a 32-byte digest of the content bytes alone.
#[verifier::external_body]
pub(crate) fn new_public_blob(data: Vec<u8>) -> (r: (safe_nd::Blob, Vec<u8>))
    ensures
        blob_contents(r.0) == data@,
        r.1@ == public_blob_name(data@),
        r.1@.len() == BLOB_NAME_LEN,
{
    let blob: safe_nd::Blob = safe_nd::PublicBlob::new(data).into();
    let name = blob.name().0.to_vec();
    (blob, name)
}

/// Relies on `safe_nd::PrivateBlob::new` and `safe_nd::Blob::name`: builds
/// the private blob holding exactly `data`, bound to exactly `owner`, and
/// returns it with its network name, a 32-byte digest of the content bytes
/// and the owner key alone.
#[verifier::external_body]
pub(crate) fn new_private_blob(data: Vec<u8>, owner: &OwnerKey) -> (r: (safe_nd::Blob, Vec<u8>))
    ensures
        blob_contents(r.0) == data@,
        blob_owner_encoding(r.0) == owner@,
        r.1@ == private_blob_name(data@, owner@),
        r.1@.len() == BLOB_NAME_LEN,
{
    let blob: safe_nd::Blob = safe_nd::PrivateBlob::new(data, owner.key).into();
    let name = blob.name().0.to_vec();
    (blob, name)
}

/// Relies on `safe_nd::Blob::value`: hands back the content bytes held in
/// the blob (the raw value, not a wrapper object).
#[verifier::external_body]
pub(crate) fn blob_value(blob: &safe_nd::Blob) -> (r: Vec<u8>)
    ensures
        r@ == blob_contents(*blob),
{
    blob.value().clone()
}

} // verus!

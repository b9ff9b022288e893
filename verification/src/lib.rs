//! Blob storage adapter: derives deterministic, content-addressed names for
//! public and private blobs, validates requested names, and translates
//! between the chunking algorithm's byte-oriented storage calls and the
//! network's typed blob operations. A dry-run variant computes addresses
//! without persisting anything.

pub mod address;
pub mod errors;
pub mod storage;

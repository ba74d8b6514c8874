//! Fixed-width identifiers: wallet keys and operation hashes.

use vstd::prelude::*;

verus! {

/// Number of bytes in a public key.
pub const PUBLIC_KEY_LENGTH: usize = 32;

/// Number of bytes in a hash.
pub const HASH_LENGTH: usize = 32;

/// Compares two 32-byte blocks byte by byte.
pub fn bytes_equal(left: &[u8; 32], right: &[u8; 32]) -> (equal: bool)
    ensures
        equal == (left@ == right@),
{
    let mut i: usize = 0;
    while i < 32
        invariant
            i <= 32,
            forall|j: int| 0 <= j < i ==> left@[j] == right@[j],
        decreases 32 - i,
    {
        if left[i] != right[i] {
            return false;
        }
        i = i + 1;
    }
    assert(left@ =~= right@);
    true
}

/// Copies a slice of exactly 32 bytes into a block; any other length gives `None`.
pub fn block_from_slice(bytes: &[u8]) -> (block: Option<[u8; 32]>)
    ensures
        block is Some <==> bytes@.len() == 32,
        block matches Some(b) ==> b@ == bytes@,
{
    if bytes.len() != 32 {
        return None;
    }
    let mut block: [u8; 32] = [0u8; 32];
    let mut i: usize = 0;
    while i < 32
        invariant
            i <= 32,
            bytes@.len() == 32,
            forall|j: int| 0 <= j < i ==> block@[j] == bytes@[j],
        decreases 32 - i,
    {
        block[i] = bytes[i];
        i = i + 1;
    }
    assert(block@ =~= bytes@);
    Some(block)
}

/// Identity of a wallet: the public half of its owner's signing key.
#[derive(Clone, Copy, Debug, PartialEq, Eq, Hash)]
pub struct PublicKey {
    pub bytes: [u8; 32],
}

impl View for PublicKey {
    type V = Seq<u8>;

    open spec fn view(&self) -> Seq<u8> {
        self.bytes@
    }
}

impl PublicKey {
    /// Wraps 32 raw bytes as a key.
    pub fn new(bytes: [u8; 32]) -> (key: PublicKey)
        ensures
            key@ == bytes@,
    {
        PublicKey { bytes }
    }

    /// Reads a key from a slice, which must hold exactly 32 bytes.
    pub fn from_slice(bytes: &[u8]) -> (key: Option<PublicKey>)
        ensures
            key is Some <==> bytes@.len() == 32,
            key matches Some(k) ==> k@ == bytes@,
    {
        match block_from_slice(bytes) {
            Some(block) => Some(PublicKey { bytes: block }),
            None => None,
        }
    }

    /// The key's bytes.
    pub fn as_bytes(&self) -> (bytes: &[u8; 32])
        ensures
            bytes@ == self@,
    {
        &self.bytes
    }

    /// Whether two keys name the same wallet.
    pub fn same_as(&self, other: &PublicKey) -> (same: bool)
        ensures
            same == (self@ == other@),
    {
        bytes_equal(&self.bytes, &other.bytes)
    }
}

/// Content hash of an operation, kept by each wallet it changes.
#[derive(Clone, Copy, Debug, PartialEq, Eq, Hash)]
pub struct Hash {
    pub bytes: [u8; 32],
}

impl View for Hash {
    type V = Seq<u8>;

    open spec fn view(&self) -> Seq<u8> {
        self.bytes@
    }
}

impl Hash {
    /// Wraps 32 raw bytes as a hash.
    pub fn new(bytes: [u8; 32]) -> (hash: Hash)
        ensures
            hash@ == bytes@,
    {
        Hash { bytes }
    }

    /// Reads a hash from a slice, which must hold exactly 32 bytes.
    pub fn from_slice(bytes: &[u8]) -> (hash: Option<Hash>)
        ensures
            hash is Some <==> bytes@.len() == 32,
            hash matches Some(h) ==> h@ == bytes@,
    {
        match block_from_slice(bytes) {
            Some(block) => Some(Hash { bytes: block }),
            None => None,
        }
    }

    /// The hash's bytes.
    pub fn as_bytes(&self) -> (bytes: &[u8; 32])
        ensures
            bytes@ == self@,
    {
        &self.bytes
    }

    /// Whether two hashes are the same.
    pub fn same_as(&self, other: &Hash) -> (same: bool)
        ensures
            same == (self@ == other@),
    {
        bytes_equal(&self.bytes, &other.bytes)
    }
}

} // verus!

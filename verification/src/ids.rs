//! Fixed-size identifiers: keys, hashes, locks and nonces.
use vstd::prelude::*;

verus! {

broadcast use vstd::array::group_array_axioms;

/// Compares two byte arrays of the same length, byte by byte.
pub fn bytes_equal<const N: usize>(a: &[u8; N], b: &[u8; N]) -> (r: bool)
    ensures
        r == (*a == *b),
{
    let mut i: usize = 0;
    while i < N
        invariant
            i <= N,
            a@.len() == N,
            b@.len() == N,
            forall|j: int| 0 <= j < i ==> a[j] == b[j],
        decreases N - i,
    {
        if a[i] != b[i] {
            return false;
        }
        i = i + 1;
    }
    assert(*a =~= *b);
    true
}

/// An identifier that can key a `KeyMap`: a `Copy` value whose equality
/// can be decided at run time.
pub trait MapKey: Copy {
    /// Whether two identifiers are the same identifier.
    fn same(&self, other: &Self) -> (r: bool)
        ensures
            r == (*self == *other),
    ;
}

/// A public key of a node.
#[derive(Clone, Copy, Debug, PartialEq, Eq, Hash)]
pub struct PublicKey(pub [u8; 32]);

/// A signature.
#[derive(Clone, Copy, Debug, PartialEq, Eq, Hash)]
pub struct Signature(pub [u8; 64]);

/// A random nonce.
#[derive(Clone, Copy, Debug, PartialEq, Eq, Hash)]
pub struct RandValue(pub [u8; 16]);

/// A hash digest.
#[derive(Clone, Copy, Debug, PartialEq, Eq, Hash)]
pub struct HashResult(pub [u8; 32]);

/// A unique identifier of a request (a transaction).
#[derive(Clone, Copy, Debug, PartialEq, Eq, Hash)]
pub struct Uid(pub [u8; 16]);

/// The identifier of an invoice.
#[derive(Clone, Copy, Debug, PartialEq, Eq, Hash)]
pub struct InvoiceId(pub [u8; 32]);

/// The identifier of a payment.
#[derive(Clone, Copy, Debug, PartialEq, Eq, Hash)]
pub struct PaymentId(pub [u8; 16]);

/// The secret that opens a hashed lock.
#[derive(Clone, Copy, Debug, PartialEq, Eq, Hash)]
pub struct PlainLock(pub [u8; 32]);

/// A lock: the hash of a plain lock.
#[derive(Clone, Copy, Debug, PartialEq, Eq, Hash)]
pub struct HashedLock(pub [u8; 32]);

impl MapKey for PublicKey {
    fn same(&self, other: &Self) -> (r: bool) {
        bytes_equal(&self.0, &other.0)
    }
}

impl MapKey for Uid {
    fn same(&self, other: &Self) -> (r: bool) {
        bytes_equal(&self.0, &other.0)
    }
}

impl MapKey for InvoiceId {
    fn same(&self, other: &Self) -> (r: bool) {
        bytes_equal(&self.0, &other.0)
    }
}

impl MapKey for PaymentId {
    fn same(&self, other: &Self) -> (r: bool) {
        bytes_equal(&self.0, &other.0)
    }
}

} // verus!

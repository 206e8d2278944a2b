//! Account identities.

use vstd::prelude::*;
use crate::digest::{append_digest, bytes_equal};

verus! {

/// The identity of an account that signs calls and submits attestations.
///
/// An identity is either a key-controlled account, named by its 32-byte
/// public key, or a contract, named by its 32-byte hash. Two identities are
/// the same when both the kind and the bytes agree.
#[derive(Copy, Clone, Debug, PartialEq, Eq, Hash)]
pub enum Identity {
    /// A key-controlled account, by its public key.
    Account([u8; 32]),
    /// A contract, by its hash.
    Contract([u8; 32]),
}

impl Identity {
    /// The 32 bytes that name this identity within its kind.
    pub open spec fn spec_payload(&self) -> [u8; 32] {
        match *self {
            Identity::Account(bytes) => bytes,
            Identity::Contract(bytes) => bytes,
        }
    }

    /// Returns the 32 bytes that name this identity within its kind.
    #[verifier::when_used_as_spec(spec_payload)]
    pub fn payload(&self) -> (bytes: [u8; 32])
        ensures
            bytes == self.spec_payload(),
    {
        match self {
            Identity::Account(bytes) => *bytes,
            Identity::Contract(bytes) => *bytes,
        }
    }

    /// Tells whether this identity is a key-controlled account.
    pub fn is_account(&self) -> (account: bool)
        ensures
            account == (*self is Account),
    {
        match self {
            Identity::Account(_) => true,
            Identity::Contract(_) => false,
        }
    }

    /// The byte that tells the two kinds of identity apart in serialized
    /// form: 0 for an account, 1 for a contract.
    pub open spec fn spec_kind_tag(&self) -> u8 {
        match *self {
            Identity::Account(_) => 0,
            Identity::Contract(_) => 1,
        }
    }

    /// The serialized form of this identity: the kind tag, then the 32 bytes
    /// of the payload.
    pub open spec fn spec_to_bytes(&self) -> Seq<u8> {
        seq![self.spec_kind_tag()] + self.spec_payload()@
    }

    /// Appends the serialized form of this identity to `out`.
    pub fn write_to(&self, out: &mut Vec<u8>)
        ensures
            final(out)@ == old(out)@ + self.spec_to_bytes(),
    {
        match self {
            Identity::Account(bytes) => {
                out.push(0);
                append_digest(out, bytes);
            },
            Identity::Contract(bytes) => {
                out.push(1);
                append_digest(out, bytes);
            },
        }
    }

    /// Returns the serialized form of this identity, 33 bytes long.
    pub fn to_bytes(&self) -> (bytes: Vec<u8>)
        ensures
            bytes@ == self.spec_to_bytes(),
            bytes@.len() == 33,
    {
        let mut bytes: Vec<u8> = Vec::new();
        self.write_to(&mut bytes);
        bytes
    }

    /// Identities with the same serialized form are the same identity.
    pub proof fn lemma_to_bytes_injective(a: Identity, b: Identity)
        requires
            a.spec_to_bytes() == b.spec_to_bytes(),
        ensures
            a == b,
    {
        let x = a.spec_to_bytes();
        let y = b.spec_to_bytes();
        assert(x[0] == y[0]);
        assert forall|i: int| 0 <= i < 32 implies a.spec_payload()[i] == b.spec_payload()[i] by {
            assert(x[i + 1] == a.spec_payload()@[i]);
            assert(y[i + 1] == b.spec_payload()@[i]);
        }
        assert(a.spec_payload() =~= b.spec_payload());
    }

    /// Tells whether `self` and `other` are the same identity.
    pub fn same_as(&self, other: &Identity) -> (same: bool)
        ensures
            same == (*self == *other),
    {
        match (self, other) {
            (Identity::Account(a), Identity::Account(b)) => bytes_equal(a, b),
            (Identity::Contract(a), Identity::Contract(b)) => bytes_equal(a, b),
            _ => false,
        }
    }
}

} // verus!

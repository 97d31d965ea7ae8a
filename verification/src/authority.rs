//! Who may move funds: a holder directly, or the pool through the identity
//! derived from its stored seed.
//!
//! The pool holds no private key. It signs for its vaults by presenting the
//! seeds from which its identity was derived; a movement is authorised when
//! the identity that signs is the owner of the account that is debited.

use vstd::prelude::*;
use vstd::bytes::{spec_u64_to_le_bytes, u64_to_le_bytes};

verus! {

/// A 32-byte identity of an account holder, an asset type or a pool.
#[derive(Clone, Copy, Debug, PartialEq, Eq)]
pub struct Address {
    pub bytes: [u8; 32],
}

impl Address {
    /// Tells whether two addresses are the same 32 bytes.
    pub fn same(&self, other: &Address) -> (equal: bool)
        ensures
            equal == (*self == *other),
    {
        let mut i: usize = 0;
        while i < 32
            invariant
                i <= 32,
                forall|j: int| 0 <= j < i ==> self.bytes[j] == other.bytes[j],
            decreases 32 - i,
        {
            if self.bytes[i] != other.bytes[i] {
                return false;
            }
            i += 1;
        }
        assert(self.bytes =~= other.bytes);
        true
    }
}

/// The authority under which a movement of funds is signed.
#[derive(Clone, Copy, Debug, PartialEq, Eq)]
pub enum TransferAuthority {
    /// The holder of the debited account signs directly.
    User { owner: Address },
    /// The pool signs through its derived identity, proved by `seed` and `bump`.
    Pool { identity: Address, seed: u64, bump: u8 },
}

/// The fixed first seed of every pool identity: the ASCII bytes of `config`.
pub open spec fn spec_authority_tag() -> Seq<u8> {
    seq![99u8, 111u8, 110u8, 102u8, 105u8, 103u8]
}

/// Tells whether `seeds` holds exactly the byte strings of `expected`, in order.
pub open spec fn seeds_match(seeds: Seq<Vec<u8>>, expected: Seq<Seq<u8>>) -> bool {
    &&& seeds.len() == expected.len()
    &&& forall|i: int| 0 <= i < seeds.len() ==> (#[trigger] seeds[i])@ == expected[i]
}

impl TransferAuthority {
    /// The identity that signs under this authority.
    pub open spec fn identity(self) -> Address {
        match self {
            TransferAuthority::User { owner } => owner,
            TransferAuthority::Pool { identity, .. } => identity,
        }
    }

    /// The seeds that prove a derived identity: none for a holder; for a pool
    /// the tag, the seed in little-endian order, and the bump.
    pub open spec fn spec_signer_seeds(self) -> Seq<Seq<u8>> {
        match self {
            TransferAuthority::User { .. } => Seq::empty(),
            TransferAuthority::Pool { seed, bump, .. } => seq![
                spec_authority_tag(),
                spec_u64_to_le_bytes(seed),
                seq![bump],
            ],
        }
    }

    /// Returns the identity that signs under this authority.
    pub fn signer(&self) -> (id: Address)
        ensures
            id == self.identity(),
    {
        match self {
            TransferAuthority::User { owner } => *owner,
            TransferAuthority::Pool { identity, .. } => *identity,
        }
    }

    /// Tells whether this authority may debit an account owned by `owner`.
    pub fn authorizes(&self, owner: &Address) -> (allowed: bool)
        ensures
            allowed == (self.identity() == *owner),
    {
        let id = self.signer();
        id.same(owner)
    }

    /// Returns the seeds to present when signing under this authority.
    pub fn signer_seeds(&self) -> (seeds: Vec<Vec<u8>>)
        ensures
            seeds_match(seeds@, self.spec_signer_seeds()),
    {
        match self {
            TransferAuthority::User { .. } => Vec::new(),
            TransferAuthority::Pool { seed, bump, .. } => {
                let mut tag: Vec<u8> = Vec::new();
                tag.push(99u8);
                tag.push(111u8);
                tag.push(110u8);
                tag.push(102u8);
                tag.push(105u8);
                tag.push(103u8);
                let mut nonce: Vec<u8> = Vec::new();
                nonce.push(*bump);
                let mut seeds: Vec<Vec<u8>> = Vec::new();
                seeds.push(tag);
                seeds.push(u64_to_le_bytes(*seed));
                seeds.push(nonce);
                proof {
                    assert(seeds@[0]@ =~= spec_authority_tag());
                    assert(seeds@[2]@ =~= seq![*bump]);
                }
                seeds
            },
        }
    }
}

} // verus!

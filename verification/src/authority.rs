//! The pool's derived authority over its vault.
//!
//! No key exists for this authority. It is derived from the pool's own
//! record, and only the operations of this library hand one out: a transfer
//! out of the vault is authorized by the value that a committed withdrawal or
//! borrow returns, and by nothing else.

use vstd::prelude::*;

use crate::constants::LENDING_POOL_SEED;
use crate::pubkey::Pubkey;
use crate::state::LendingPool;

verus! {

/// Proof that a transfer out of a pool's vault was decided by the pool's own
/// bookkeeping.
#[derive(Debug, Clone, Copy, PartialEq, Eq)]
pub struct VaultAuthority {
    token_mint: Pubkey,
    bump: u8,
}

/// Copies an array of bytes into a vector.
fn bytes_to_vec<const N: usize>(bytes: &[u8; N]) -> (v: Vec<u8>)
    ensures
        v@ == bytes@,
{
    let mut v: Vec<u8> = Vec::new();
    let mut i: usize = 0;
    while i < N
        invariant
            i <= N,
            v@.len() == i,
            forall|j: int| 0 <= j < i ==> v@[j] == bytes@[j],
        decreases N - i,
    {
        v.push(bytes[i]);
        i += 1;
    }
    assert(v@ =~= bytes@);
    v
}

impl VaultAuthority {
    /// The authority over the vault of `pool`.
    pub closed spec fn of(pool: LendingPool) -> VaultAuthority {
        VaultAuthority { token_mint: pool.token_mint, bump: pool.bump }
    }

    /// The asset of the pool that the authority was derived from.
    pub closed spec fn spec_token_mint(&self) -> Pubkey {
        self.token_mint
    }

    /// The bump of the pool that the authority was derived from.
    pub closed spec fn spec_bump(&self) -> u8 {
        self.bump
    }

    /// The seeds that the authority signs with: the pool seed, the bytes of
    /// the pool's asset, and the pool's bump.
    pub open spec fn spec_signer_seeds(&self) -> Seq<Seq<u8>> {
        seq![LENDING_POOL_SEED@, self.spec_token_mint()@, seq![self.spec_bump()]]
    }

    /// An authority holds the asset and the bump of its pool, and pools that
    /// agree on both have the same authority.
    pub proof fn lemma_of(pool: LendingPool)
        ensures
            Self::of(pool).spec_token_mint() == pool.token_mint,
            Self::of(pool).spec_bump() == pool.bump,
            forall|other: LendingPool|
                other.token_mint == pool.token_mint && other.bump == pool.bump ==> #[trigger] Self::of(
                    other,
                ) == Self::of(pool),
    {
    }

    pub(crate) fn derive(pool: &LendingPool) -> (authority: VaultAuthority)
        ensures
            authority == Self::of(*pool),
    {
        VaultAuthority { token_mint: pool.token_mint, bump: pool.bump }
    }

    pub fn token_mint(&self) -> (mint: Pubkey)
        ensures
            mint == self.spec_token_mint(),
    {
        self.token_mint
    }

    pub fn bump(&self) -> (bump: u8)
        ensures
            bump == self.spec_bump(),
    {
        self.bump
    }

    pub fn signer_seeds(&self) -> (seeds: Vec<Vec<u8>>)
        ensures
            seeds@.len() == self.spec_signer_seeds().len(),
            forall|i: int|
                0 <= i < seeds@.len() ==> (#[trigger] seeds@[i])@ == self.spec_signer_seeds()[i],
    {
        let mut seeds: Vec<Vec<u8>> = Vec::new();
        seeds.push(bytes_to_vec(&LENDING_POOL_SEED));
        seeds.push(bytes_to_vec(&self.token_mint.bytes));
        let mut bump: Vec<u8> = Vec::new();
        bump.push(self.bump);
        assert(bump@ =~= seq![self.bump]);
        seeds.push(bump);
        seeds
    }
}

} // verus!

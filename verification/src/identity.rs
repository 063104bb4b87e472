//! Account identities and the derived custodial authority.

use vstd::prelude::*;

verus! {

/// The identity of an account: 32 raw bytes, as the host chain represents
/// public keys.
#[derive(Clone, Copy, Debug)]
pub struct AccountId {
    pub bytes: [u8; 32],
}

impl View for AccountId {
    type V = [u8; 32];

    open spec fn view(&self) -> [u8; 32] {
        self.bytes
    }
}

impl PartialEq for AccountId {
    fn eq(&self, other: &Self) -> (r: bool) {
        let mut i: usize = 0;
        while i < 32
            invariant
                0 <= i <= 32,
                forall|j: int| 0 <= j < i ==> self.bytes@[j] == other.bytes@[j],
            decreases 32 - i,
        {
            if self.bytes[i] != other.bytes[i] {
                return false;
            }
            i = i + 1;
        }
        proof {
            assert(self.bytes =~= other.bytes);
        }
        true
    }
}

impl vstd::std_specs::cmp::PartialEqSpecImpl for AccountId {
    open spec fn obeys_eq_spec() -> bool {
        true
    }

    open spec fn eq_spec(&self, other: &Self) -> bool {
        self.bytes == other.bytes
    }
}

/// The authority key and bump seed that the host chain's program-address
/// derivation computes from a seller identity and a program identity. The
/// derivation is deterministic — the same seller and program always yield the
/// same authority — so its result only has to be named; `None` stands for the
/// rare seed for which no bump yields a valid address.
pub uninterp spec fn derived_authority_of(seller: [u8; 32], program: [u8; 32]) -> Option<
    ([u8; 32], u8),
>;

/// Relies on `Pubkey::try_find_program_address` (re-exported by
/// `anchor_lang::prelude`): a pure, deterministic derivation of a program
/// address and bump seed from the seed bytes — here the seller's key — and
/// the program identity; `None` when no bump seed yields a valid address.
#[verifier::external_body]
pub(crate) fn derive_authority(seller: &AccountId, program: &AccountId) -> (r: Option<
    (AccountId, u8),
>)
    ensures
        match (r, derived_authority_of(seller@, program@)) {
            (Some(a), Some(d)) => a.0@ == d.0 && a.1 == d.1,
            (None, None) => true,
            _ => false,
        },
{
    let program_key = anchor_lang::prelude::Pubkey::new_from_array(program.bytes);
    let derived = anchor_lang::prelude::Pubkey::try_find_program_address(
        &[&seller.bytes],
        &program_key,
    );
    match derived {
        Some((authority, bump)) => Some((AccountId { bytes: authority.to_bytes() }, bump)),
        None => None,
    }
}

/// Whether `id` is the custodial authority that the protocol derives from
/// `seller` under `program`. When the derivation yields no address, no
/// identity is the custodial authority.
pub open spec fn is_custodial_authority(id: AccountId, seller: AccountId, program: AccountId) -> bool {
    match derived_authority_of(seller@, program@) {
        Some(d) => id@ == d.0,
        None => false,
    }
}

/// Decides `is_custodial_authority` by re-deriving the authority at the
/// moment of use; no custodial key is ever stored.
pub(crate) fn check_custodial_authority(id: &AccountId, seller: &AccountId, program: &AccountId) -> (r:
    bool)
    ensures
        r == is_custodial_authority(*id, *seller, *program),
{
    match derive_authority(seller, program) {
        Some((authority, _bump)) => *id == authority,
        None => false,
    }
}

} // verus!

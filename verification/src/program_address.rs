use vstd::prelude::*;
use crate::pubkey::Pubkey;

verus! {

/// The address that a program derives from one seed, and the bump that it
/// found it with: what `Pubkey::try_find_program_address` of solana-program
/// returns for the seed and the program's identity, `None` where it finds no
/// address.
pub uninterp spec fn derived_address(seed: Seq<u8>, program_id: Seq<u8>) -> Option<(Seq<u8>, u8)>;

/// Calls `Pubkey::try_find_program_address` of solana-program, which
/// anchor_lang hands on, with `seed` as the one seed.
///
/// Not proved: that what comes back is the value named [`derived_address`],
/// that is, that it depends on the seed and the program's identity alone.
/// Nothing is claimed of which address it is.
#[verifier::external_body]
pub(crate) fn find_program_address(seed: &[u8], program_id: &Pubkey) -> (found: Option<
    (Pubkey, u8),
>)
    ensures
        match found {
            Some((key, bump)) => derived_address(seed@, program_id.bytes@) == Some(
                (key.bytes@, bump),
            ),
            None => derived_address(seed@, program_id.bytes@) is None,
        },
{
    let program = anchor_lang::prelude::Pubkey::new_from_array(program_id.bytes);
    match anchor_lang::prelude::Pubkey::try_find_program_address(&[seed], &program) {
        Some((key, bump)) => Some((Pubkey { bytes: key.to_bytes() }, bump)),
        None => None,
    }
}

/// Whether `key` is the address that the program `program_id` derives from
/// `seed`.
pub open spec fn is_derived(key: Pubkey, seed: Seq<u8>, program_id: Pubkey) -> bool {
    derived_address(seed, program_id.bytes@) matches Some((bytes, _)) && bytes == key.bytes@
}

/// Two identities with the same bytes are the same identity.
pub proof fn lemma_same_bytes(a: Pubkey, b: Pubkey)
    ensures
        (a.bytes@ == b.bytes@) == (a == b),
{
    if a.bytes@ == b.bytes@ {
        assert forall|i: int| 0 <= i < 32 implies a.bytes[i] == b.bytes[i] by {
            assert(a.bytes@[i] == b.bytes@[i]);
        }
        assert(a.bytes =~= b.bytes);
    }
}

/// Whether `key` is the address that the program `program_id` derives from
/// `seed`.
pub fn check_derived(key: &Pubkey, seed: &[u8], program_id: &Pubkey) -> (r: bool)
    ensures
        r == is_derived(*key, seed@, *program_id),
{
    match find_program_address(seed, program_id) {
        Some((found, _)) => {
            proof {
                lemma_same_bytes(found, *key);
            }
            found == *key
        },
        None => false,
    }
}

} // verus!

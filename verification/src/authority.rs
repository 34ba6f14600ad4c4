//! The address that a program derives from seeds, computed by the chain's own
//! library.

use vstd::prelude::*;
use anchor_lang::prelude::Pubkey;
use crate::address::Address;

verus! {

/// The address that `program_id` derives from the two seeds `seed_tag` and
/// `key`, tried with the bump bytes from 255 downwards, or `None` where no
/// bump byte gives one or a seed is too long. It depends on the three byte
/// strings alone.
pub uninterp spec fn program_address(seed_tag: Seq<u8>, key: Seq<u8>, program_id: Seq<u8>) -> Option<Seq<u8>>;

/// Calls `Pubkey::try_find_program_address` with the seeds `seed_tag` and the
/// bytes of `key`. Not proved: that the call returns, without a panic, the
/// derived address that `program_address` names, which rests on the hash and
/// the curve test made there.
#[verifier::external_body]
pub(crate) fn try_find_program_address(seed_tag: &[u8], key: &Address, program_id: &Address) -> (r: Option<Address>)
    ensures
        match r {
            Some(a) => program_address(seed_tag@, key@, program_id@) == Some(a@),
            None => program_address(seed_tag@, key@, program_id@) is None,
        },
{
    let program = Pubkey::new_from_array(program_id.bytes);
    Pubkey::try_find_program_address(&[seed_tag, &key.bytes], &program)
        .map(|found| Address { bytes: found.0.to_bytes() })
}

} // verus!

//! Initialisation of a pickle group: a record that mirrors the token list of a
//! mango group and binds one liquidation pool to every mirrored token.

use vstd::prelude::*;

pub mod address;
pub mod authority;
pub mod errors;
pub mod instructions;
pub mod mango;
pub mod reconcile;
pub mod state;

use crate::authority::{try_find_program_address, program_address};
use crate::errors::PickleError;
use crate::instructions::{Context, PICKLE_AUTHORITY};
use crate::mango::{MangoGroupSnapshot, ReadFailure};
use crate::reconcile::{init_outcome, loaded_view, reconcile};
use crate::state::{PickleGroup, PickleGroupView};

verus! {

/// Initialises a pickle group for the mango group that `mango_group` holds the
/// tokens of, or tells why not. The authority account has to be the address
/// that this program derives from the authority tag and the address of the
/// group record.
pub fn init_pickle_group(
    ctx: &Context,
    mango_group: Result<MangoGroupSnapshot, ReadFailure>,
    liquidation_deposit: u32,
) -> (r: Result<PickleGroup, PickleError>)
    ensures
        r matches Ok(g) ==> g@.well_formed(),
        match r {
            Ok(g) => init_outcome(
                ctx@,
                program_address(PICKLE_AUTHORITY@, ctx.accounts.pickle_group_ai@, ctx.program_id@),
                loaded_view(mango_group),
                liquidation_deposit,
            ) == Ok::<PickleGroupView, PickleError>(g@),
            Err(e) => init_outcome(
                ctx@,
                program_address(PICKLE_AUTHORITY@, ctx.accounts.pickle_group_ai@, ctx.program_id@),
                loaded_view(mango_group),
                liquidation_deposit,
            ) == Err::<PickleGroupView, PickleError>(e),
        },
{
    let tag = PICKLE_AUTHORITY;
    let derived = try_find_program_address(tag.as_slice(), &ctx.accounts.pickle_group_ai, &ctx.program_id);
    reconcile(ctx, derived, mango_group, liquidation_deposit)
}

} // verus!

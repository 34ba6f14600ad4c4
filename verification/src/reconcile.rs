//! Matching the pool accounts of a caller against the tokens of a mango group.
//!
//! A group mirrors the slots of the mango group that lie before the quote
//! token and hold a mint, each at its own index. The caller supplies one pool
//! account for every mirrored slot, in the order of the slots, and each pool
//! has to hold the token of its slot.

use vstd::prelude::*;
use crate::address::{zero_address, Address};
use crate::errors::PickleError;
use crate::instructions::{accounts_view, mint_of, Context, ContextView, PoolAccount, PoolAccountView};
use crate::mango::{MangoGroupSnapshot, ReadFailure};
use crate::state::{
    empty_token, new_meta_data, DataType, MetaData, PickleGroup, PickleGroupView, TokenInfo,
    TokenInfoView,
};

verus! {

/// Slot of the quote token, which is never mirrored.
pub const QUOTE_INDEX: usize = 15;

/// Share of the transaction fees kept for keepers in a new group.
pub const KEEPER_MULTIPLIER: u32 = 10_000_000;

/// Whether slot `i` of the mango group is mirrored: it lies before the quote
/// token and holds a mint.
pub open spec fn is_mirrored(tokens: Seq<TokenInfoView>, i: int) -> bool {
    0 <= i < QUOTE_INDEX && tokens[i].mint != zero_address()
}

/// Number of mirrored slots before slot `n`.
pub open spec fn mirrored_below(tokens: Seq<TokenInfoView>, n: int) -> int
    decreases n,
{
    if n <= 0 {
        0
    } else {
        mirrored_below(tokens, n - 1) + if is_mirrored(tokens, n - 1) { 1int } else { 0int }
    }
}

/// Number of mirrored slots: the number of pool accounts owed.
pub open spec fn mirrored_count(tokens: Seq<TokenInfoView>) -> int {
    mirrored_below(tokens, QUOTE_INDEX as int)
}

/// What slot `i` of a new group's tokens holds.
pub open spec fn mirrored_token(tokens: Seq<TokenInfoView>, i: int) -> TokenInfoView {
    if is_mirrored(tokens, i) {
        tokens[i]
    } else {
        empty_token()
    }
}

/// Whether the pool account supplied for the mirrored slot `i` holds the
/// slot's token. The accounts come in the order of the slots they are for.
pub open spec fn mint_matches(tokens: Seq<TokenInfoView>, accounts: Seq<PoolAccountView>, i: int) -> bool {
    mint_of(accounts[mirrored_below(tokens, i)].data) == Some(tokens[i].mint)
}

/// Whether every mirrored slot is supplied with a pool of its own token.
pub open spec fn all_mints_match(tokens: Seq<TokenInfoView>, accounts: Seq<PoolAccountView>) -> bool {
    forall|i: int| #[trigger] is_mirrored(tokens, i) ==> mint_matches(tokens, accounts, i)
}

/// What slot `i` of a new group's pools holds.
pub open spec fn bound_pool(tokens: Seq<TokenInfoView>, accounts: Seq<PoolAccountView>, i: int) -> Seq<u8> {
    if is_mirrored(tokens, i) {
        accounts[mirrored_below(tokens, i)].key
    } else {
        zero_address()
    }
}

/// The pools of a new group, or why the accounts are refused.
pub open spec fn pools_outcome(tokens: Seq<TokenInfoView>, accounts: Seq<PoolAccountView>) -> Result<Seq<Seq<u8>>, PickleError> {
    if accounts.len() != mirrored_count(tokens) {
        Err(PickleError::TokenPoolsMissing)
    } else if !all_mints_match(tokens, accounts) {
        Err(PickleError::InvalidMint)
    } else {
        Ok(Seq::new(16, |i: int| bound_pool(tokens, accounts, i)))
    }
}

/// The record of a group that was initialised with the given pools.
pub open spec fn initialized_group(
    ctx: ContextView,
    tokens: Seq<TokenInfoView>,
    pools: Seq<Seq<u8>>,
    liquidation_deposit: u32,
) -> PickleGroupView {
    PickleGroupView {
        meta_data: new_meta_data(DataType::PickleGroup, 0, true),
        mango_program_id: ctx.accounts.mango_program_id,
        mango_group: ctx.accounts.mango_group,
        admin_ai: ctx.accounts.admin,
        liquidation_deposit,
        tokens: Seq::new(16, |i: int| mirrored_token(tokens, i)),
        token_count_of_mango: 0,
        token_pools: pools,
        num_users: 0,
        value_locked_in_liquidation_pools: Seq::new(16, |i: int| 0u64),
        solana_vault: ctx.accounts.solana_vault,
        locked_sol_multiplier_to_incentivize_keeper: 10_000_000,
        pickle_authority_pk: ctx.accounts.pickle_authority,
        padding: Seq::new(256, |i: int| 0u8),
    }
}

/// What initialising a group gives: the new record, or the first check that
/// fails. `derived` is the address derived for the group and `loaded` the
/// tokens of the mango group, `None` where it could not be loaded.
pub open spec fn init_outcome(
    ctx: ContextView,
    derived: Option<Seq<u8>>,
    loaded: Option<Seq<TokenInfoView>>,
    liquidation_deposit: u32,
) -> Result<PickleGroupView, PickleError> {
    if derived != Some(ctx.accounts.pickle_authority) {
        Err(PickleError::AuthorityMismatch)
    } else {
        match loaded {
            None => Err(PickleError::MangoError),
            Some(tokens) => match pools_outcome(tokens, ctx.remaining_accounts) {
                Err(e) => Err(e),
                Ok(pools) => Ok(initialized_group(ctx, tokens, pools, liquidation_deposit)),
            },
        }
    }
}

/// Model of an address that may be missing.
pub open spec fn derived_view(derived: Option<Address>) -> Option<Seq<u8>> {
    match derived {
        Some(a) => Some(a@),
        None => None,
    }
}

/// The tokens of a mango group that was loaded, `None` where it was not.
pub open spec fn loaded_view(mango_group: Result<MangoGroupSnapshot, ReadFailure>) -> Option<Seq<TokenInfoView>> {
    match mango_group {
        Ok(g) => Some(g@),
        Err(_) => None,
    }
}

/// The count of mirrored slots grows with the slot.
pub proof fn lemma_mirrored_below_grows(tokens: Seq<TokenInfoView>, a: int, b: int)
    requires
        a <= b,
    ensures
        mirrored_below(tokens, a) <= mirrored_below(tokens, b),
        0 <= mirrored_below(tokens, a),
        mirrored_below(tokens, b) <= if b < 0 { 0 } else { b },
    decreases b,
{
    if b > 0 {
        if a < b {
            lemma_mirrored_below_grows(tokens, a, b - 1);
        } else {
            lemma_mirrored_below_grows(tokens, a - 1, b - 1);
        }
    }
}

/// The number of mirrored slots of a mango group.
pub fn count_tokens(mango_group: &MangoGroupSnapshot) -> (r: usize)
    ensures
        r == mirrored_count(mango_group@),
        r <= 15,
{
    let mut count: usize = 0;
    let mut i: usize = 0;
    while i < QUOTE_INDEX
        invariant
            i <= QUOTE_INDEX,
            count == mirrored_below(mango_group@, i as int),
            count <= i,
        decreases QUOTE_INDEX - i,
    {
        if !mango_group.tokens[i].mint.is_default() {
            count += 1;
        }
        i += 1;
    }
    count
}

/// The tokens of a new group: each mirrored slot of the mango group at its own
/// place, every other slot empty.
pub fn mirror_tokens(mango_group: &MangoGroupSnapshot) -> (r: [TokenInfo; 16])
    ensures
        forall|i: int| 0 <= i < 16 ==> (#[trigger] r@[i])@ == mirrored_token(mango_group@, i),
{
    let mut tokens: [TokenInfo; 16] = [TokenInfo::default(); 16];
    let mut i: usize = 0;
    while i < QUOTE_INDEX
        invariant
            i <= QUOTE_INDEX,
            forall|k: int| 0 <= k < i ==> (#[trigger] tokens@[k])@ == mirrored_token(mango_group@, k),
            forall|k: int| i <= k < 16 ==> (#[trigger] tokens@[k])@ == empty_token(),
        decreases QUOTE_INDEX - i,
    {
        let token = mango_group.tokens[i];
        if !token.mint.is_default() {
            tokens[i] = token;
        }
        i += 1;
    }
    tokens
}

/// Binds the supplied accounts to the mirrored slots, in the order of the
/// slots: the pools of a new group, or `TokenPoolsMissing` where the number of
/// accounts is not the number of mirrored slots, or `InvalidMint` where the
/// numbers agree and some account does not hold the token of its slot.
pub fn bind_pools(mango_group: &MangoGroupSnapshot, accounts: &Vec<PoolAccount>) -> (r: Result<[Address; 16], PickleError>)
    ensures
        match r {
            Ok(pools) => pools_outcome(mango_group@, accounts_view(accounts@)) == Ok::<Seq<Seq<u8>>, PickleError>(
                Seq::new(16, |i: int| pools@[i]@),
            ),
            Err(e) => pools_outcome(mango_group@, accounts_view(accounts@)) == Err::<Seq<Seq<u8>>, PickleError>(e),
        },
{
    let count = count_tokens(mango_group);
    if accounts.len() != count {
        return Err(PickleError::TokenPoolsMissing);
    }
    let ghost tokens = mango_group@;
    let mut pools: [Address; 16] = [Address::default(); 16];
    let mut next: usize = 0;
    let mut i: usize = 0;
    while i < QUOTE_INDEX
        invariant
            i <= QUOTE_INDEX,
            tokens == mango_group@,
            accounts.len() == mirrored_count(tokens),
            next == mirrored_below(tokens, i as int),
            forall|k: int| 0 <= k < i && #[trigger] is_mirrored(tokens, k) ==> mint_matches(tokens, accounts_view(accounts@), k),
            forall|k: int| 0 <= k < i ==> (#[trigger] pools@[k])@ == bound_pool(tokens, accounts_view(accounts@), k),
            forall|k: int| i <= k < 16 ==> (#[trigger] pools@[k])@ == zero_address(),
        decreases QUOTE_INDEX - i,
    {
        let token = mango_group.tokens[i];
        if !token.mint.is_default() {
            proof {
                lemma_mirrored_below_grows(tokens, i + 1, 15);
            }
            let account = &accounts[next];
            let matches = match account.mint() {
                Some(mint) => mint.same(&token.mint),
                None => false,
            };
            if !matches {
                assert(is_mirrored(tokens, i as int) && !mint_matches(tokens, accounts_view(accounts@), i as int));
                return Err(PickleError::InvalidMint);
            }
            pools[i] = account.key;
            next += 1;
        }
        i += 1;
    }
    proof {
        assert forall|k: int| #[trigger] is_mirrored(tokens, k) implies mint_matches(tokens, accounts_view(accounts@), k) by {}
        assert(Seq::new(16, |k: int| pools@[k]@) =~= Seq::new(16, |k: int| bound_pool(tokens, accounts_view(accounts@), k)));
    }
    Ok(pools)
}

/// Initialises a group, given the address that was derived for it and what
/// loading the mango group gave. The checks come in this order: the authority
/// account is the derived address; the mango group was loaded; there are as
/// many pool accounts as mirrored tokens; each pool holds the token of its
/// slot. Nothing is handed back unless all of them pass.
pub fn reconcile(
    ctx: &Context,
    derived: Option<Address>,
    mango_group: Result<MangoGroupSnapshot, ReadFailure>,
    liquidation_deposit: u32,
) -> (r: Result<PickleGroup, PickleError>)
    ensures
        r matches Ok(g) ==> g@.well_formed(),
        match r {
            Ok(g) => init_outcome(ctx@, derived_view(derived), loaded_view(mango_group), liquidation_deposit)
                == Ok::<PickleGroupView, PickleError>(g@),
            Err(e) => init_outcome(ctx@, derived_view(derived), loaded_view(mango_group), liquidation_deposit)
                == Err::<PickleGroupView, PickleError>(e),
        },
{
    let authority_ok = match derived {
        Some(a) => a.same(&ctx.accounts.pickle_authority),
        None => false,
    };
    if !authority_ok {
        return Err(PickleError::AuthorityMismatch);
    }
    let group = match mango_group {
        Ok(g) => g,
        Err(_) => {
            return Err(PickleError::MangoError);
        },
    };
    let tokens = mirror_tokens(&group);
    let pools = match bind_pools(&group, &ctx.remaining_accounts) {
        Ok(pools) => pools,
        Err(e) => {
            return Err(e);
        },
    };
    let record = PickleGroup {
        meta_data: MetaData::new(DataType::PickleGroup, 0, true),
        mango_program_id: ctx.accounts.mango_program_id,
        mango_group: ctx.accounts.mango_group,
        admin_ai: ctx.accounts.admin,
        liquidation_deposit,
        tokens,
        token_count_of_mango: 0,
        token_pools: pools,
        num_users: 0,
        value_locked_in_liquidation_pools: [0u64; 16],
        solana_vault: ctx.accounts.solana_vault,
        locked_sol_multiplier_to_incentivize_keeper: KEEPER_MULTIPLIER,
        pickle_authority_pk: ctx.accounts.pickle_authority,
        padding: [0u8; 256],
    };
    proof {
        lemma_new_group_is_well_formed(
            ctx@,
            derived_view(derived),
            loaded_view(mango_group),
            liquidation_deposit,
        );
        assert(record@.tokens =~= Seq::new(16, |i: int| mirrored_token(group@, i)));
        assert(record@.value_locked_in_liquidation_pools =~= Seq::new(16, |i: int| 0u64));
        assert(record@.padding =~= Seq::new(256, |i: int| 0u8));
    }
    Ok(record)
}

/// The mirrored slot that the account at place `j` of the supplied list is
/// for.
pub open spec fn slot_of_account(tokens: Seq<TokenInfoView>, j: int) -> int {
    choose|i: int| is_mirrored(tokens, i) && mirrored_below(tokens, i) == j
}

/// Among the slots before `n`, each place below their mirrored count belongs
/// to a mirrored slot.
proof fn lemma_place_has_slot(tokens: Seq<TokenInfoView>, n: int, j: int)
    requires
        0 <= j < mirrored_below(tokens, n),
    ensures
        exists|i: int| is_mirrored(tokens, i) && mirrored_below(tokens, i) == j,
    decreases n,
{
    if n > 0 {
        if is_mirrored(tokens, n - 1) && mirrored_below(tokens, n - 1) == j {
        } else {
            lemma_place_has_slot(tokens, n - 1, j);
        }
    }
}

/// There are at most fifteen mirrored slots, and every place of a list of that
/// many accounts belongs to exactly one of them: the accounts stand in the
/// order of their slots.
pub proof fn lemma_accounts_follow_slots(tokens: Seq<TokenInfoView>, j: int)
    requires
        0 <= j < mirrored_count(tokens),
    ensures
        0 <= mirrored_count(tokens) <= 15,
        is_mirrored(tokens, slot_of_account(tokens, j)),
        mirrored_below(tokens, slot_of_account(tokens, j)) == j,
        forall|i: int| #[trigger]
            is_mirrored(tokens, i) && mirrored_below(tokens, i) == j ==> i == slot_of_account(tokens, j),
        forall|i: int| #[trigger]
            is_mirrored(tokens, i) && i < slot_of_account(tokens, j) ==> mirrored_below(tokens, i) < j,
{
    lemma_mirrored_below_grows(tokens, 0, 15);
    lemma_place_has_slot(tokens, 15, j);
    let s = slot_of_account(tokens, j);
    assert forall|i: int| #[trigger] is_mirrored(tokens, i) && i < s implies mirrored_below(tokens, i) < j by {
        lemma_mirrored_below_grows(tokens, i + 1, s);
    }
    assert forall|i: int| #[trigger] is_mirrored(tokens, i) && mirrored_below(tokens, i) == j implies i == s by {
        if i < s {
            lemma_mirrored_below_grows(tokens, i + 1, s);
        } else if s < i {
            lemma_mirrored_below_grows(tokens, s + 1, i);
        }
    }
}

/// Where the authority account is the derived address, the mango group was
/// loaded, and each mirrored slot is supplied, in the order of the slots, with
/// a pool of its own token, the group is initialised: every mirrored slot
/// holds the token that the mango group has there and the pool supplied for
/// it, and every other slot is empty.
pub proof fn lemma_matching_accounts_initialise(
    ctx: ContextView,
    derived: Option<Seq<u8>>,
    tokens: Seq<TokenInfoView>,
    liquidation_deposit: u32,
)
    requires
        derived == Some(ctx.accounts.pickle_authority),
        ctx.remaining_accounts.len() == mirrored_count(tokens),
        all_mints_match(tokens, ctx.remaining_accounts),
    ensures
        0 <= mirrored_count(tokens) <= 15,
        init_outcome(ctx, derived, Some(tokens), liquidation_deposit) is Ok,
        ({
            let g = init_outcome(ctx, derived, Some(tokens), liquidation_deposit)->Ok_0;
            &&& g.tokens.len() == 16
            &&& g.token_pools.len() == 16
            &&& forall|i: int|
                0 <= i < 16 && #[trigger] is_mirrored(tokens, i) ==> {
                    &&& g.tokens[i] == tokens[i]
                    &&& g.token_pools[i] == ctx.remaining_accounts[mirrored_below(tokens, i)].key
                    &&& mint_of(ctx.remaining_accounts[mirrored_below(tokens, i)].data) == Some(
                        g.tokens[i].mint,
                    )
                }
            &&& forall|i: int|
                0 <= i < 16 && !#[trigger] is_mirrored(tokens, i) ==> {
                    &&& g.tokens[i] == empty_token()
                    &&& g.token_pools[i] == zero_address()
                }
            &&& forall|j: int|
                0 <= j < ctx.remaining_accounts.len() ==> #[trigger] g.token_pools[slot_of_account(tokens, j)]
                    == ctx.remaining_accounts[j].key
        }),
{
    lemma_mirrored_below_grows(tokens, 0, 15);
    let g = init_outcome(ctx, derived, Some(tokens), liquidation_deposit)->Ok_0;
    assert forall|j: int| 0 <= j < ctx.remaining_accounts.len() implies #[trigger] g.token_pools[slot_of_account(
        tokens,
        j,
    )] == ctx.remaining_accounts[j].key by {
        lemma_accounts_follow_slots(tokens, j);
    }
}

/// Every record that initialising a group gives is well formed.
pub proof fn lemma_new_group_is_well_formed(
    ctx: ContextView,
    derived: Option<Seq<u8>>,
    loaded: Option<Seq<TokenInfoView>>,
    liquidation_deposit: u32,
)
    requires
        init_outcome(ctx, derived, loaded, liquidation_deposit) is Ok,
    ensures
        init_outcome(ctx, derived, loaded, liquidation_deposit)->Ok_0.well_formed(),
{
    let g = init_outcome(ctx, derived, loaded, liquidation_deposit)->Ok_0;
    let tokens = loaded->Some_0;
    assert(!is_mirrored(tokens, 15));
    assert forall|i: int| 0 <= i < 16 && (#[trigger] g.tokens[i]).mint == zero_address() implies g.tokens[i]
        == empty_token() && g.token_pools[i] == zero_address() by {
        assert(!is_mirrored(tokens, i));
    }
}

/// Where the number of supplied accounts is not the number of mirrored slots,
/// a group whose authority is right and whose mango group was loaded is
/// refused with `TokenPoolsMissing`, whatever the accounts hold: no record
/// comes back.
pub proof fn lemma_wrong_count_is_refused(
    ctx: ContextView,
    derived: Option<Seq<u8>>,
    tokens: Seq<TokenInfoView>,
    liquidation_deposit: u32,
)
    requires
        derived == Some(ctx.accounts.pickle_authority),
        ctx.remaining_accounts.len() != mirrored_count(tokens),
    ensures
        init_outcome(ctx, derived, Some(tokens), liquidation_deposit) == Err::<PickleGroupView, PickleError>(
            PickleError::TokenPoolsMissing,
        ),
{
}

/// Where the account at one place `j` of a list of the right length does not
/// hold the token of its slot, the group is refused with `InvalidMint`,
/// whatever the other accounts hold: no record comes back.
pub proof fn lemma_wrong_mint_is_refused(
    ctx: ContextView,
    derived: Option<Seq<u8>>,
    tokens: Seq<TokenInfoView>,
    liquidation_deposit: u32,
    j: int,
)
    requires
        derived == Some(ctx.accounts.pickle_authority),
        ctx.remaining_accounts.len() == mirrored_count(tokens),
        0 <= j < ctx.remaining_accounts.len(),
        mint_of(ctx.remaining_accounts[j].data) != Some(tokens[slot_of_account(tokens, j)].mint),
    ensures
        init_outcome(ctx, derived, Some(tokens), liquidation_deposit) == Err::<PickleGroupView, PickleError>(
            PickleError::InvalidMint,
        ),
{
    lemma_accounts_follow_slots(tokens, j);
    let i = slot_of_account(tokens, j);
    assert(is_mirrored(tokens, i) && !mint_matches(tokens, ctx.remaining_accounts, i));
}

/// Where the authority account is any other address than the derived one, or
/// none could be derived, the group is refused with `AuthorityMismatch`,
/// whatever else was supplied.
pub proof fn lemma_other_authority_is_refused(
    ctx: ContextView,
    derived: Option<Seq<u8>>,
    loaded: Option<Seq<TokenInfoView>>,
    liquidation_deposit: u32,
)
    requires
        derived != Some(ctx.accounts.pickle_authority),
    ensures
        init_outcome(ctx, derived, loaded, liquidation_deposit) == Err::<PickleGroupView, PickleError>(
            PickleError::AuthorityMismatch,
        ),
{
}

} // verus!

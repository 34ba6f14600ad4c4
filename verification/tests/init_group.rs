use anchor_lang::prelude::Pubkey;
use mango_pickle::address::Address;
use mango_pickle::errors::PickleError;
use mango_pickle::init_pickle_group;
use mango_pickle::instructions::{Context, InitPickleGroup, PoolAccount, PICKLE_AUTHORITY};
use mango_pickle::mango::{MangoGroupSnapshot, ReadFailure};
use mango_pickle::reconcile::{bind_pools, count_tokens, mirror_tokens, reconcile, KEEPER_MULTIPLIER};
use mango_pickle::state::{DataType, MetaData, TokenInfo};

fn addr(b: u8) -> Address {
    Address::new([b; 32])
}

fn token(mint: u8, bank: u8, decimals: u8) -> TokenInfo {
    TokenInfo { mint: addr(mint), root_bank: addr(bank), decimals }
}

fn group_of(slots: &[(usize, TokenInfo)]) -> MangoGroupSnapshot {
    let mut tokens = [TokenInfo::default(); 16];
    for (i, t) in slots {
        tokens[*i] = *t;
    }
    MangoGroupSnapshot { tokens }
}

/// A token account of the given mint: the mint, then owner and amount.
fn pool(key: u8, mint: u8) -> PoolAccount {
    let mut data = vec![mint; 32];
    data.extend_from_slice(&[0xEE; 40]);
    PoolAccount { key: addr(key), data }
}

fn context(authority: Address, pools: Vec<PoolAccount>) -> Context {
    Context {
        program_id: addr(200),
        accounts: InitPickleGroup {
            admin: addr(201),
            mango_program_id: addr(202),
            mango_group: addr(203),
            pickle_group_ai: addr(204),
            pickle_authority: authority,
            solana_mint: addr(205),
            solana_vault: addr(206),
            system_program: addr(207),
            token_program: addr(208),
            rent: addr(209),
        },
        remaining_accounts: pools,
    }
}

const A: u8 = 10;
const B: u8 = 11;
const C: u8 = 12;

fn sparse_group() -> MangoGroupSnapshot {
    group_of(&[(0, token(A, 20, 6)), (2, token(B, 21, 9))])
}

#[test]
fn sparse_group_binds_pools_in_slot_order() {
    let ctx = context(addr(99), vec![pool(30, A), pool(31, B)]);
    let g = reconcile(&ctx, Some(addr(99)), Ok(sparse_group()), 1_500_000).unwrap();
    assert_eq!(g.tokens[0], token(A, 20, 6));
    assert_eq!(g.tokens[1], TokenInfo::default());
    assert_eq!(g.tokens[2], token(B, 21, 9));
    assert_eq!(g.token_pools[0], addr(30));
    assert_eq!(g.token_pools[1], Address::default());
    assert_eq!(g.token_pools[2], addr(31));
    for i in 3..16 {
        assert_eq!(g.tokens[i], TokenInfo::default());
        assert_eq!(g.token_pools[i], Address::default());
    }
}

#[test]
fn new_group_copies_what_the_caller_named() {
    let ctx = context(addr(99), vec![pool(30, A), pool(31, B)]);
    let g = reconcile(&ctx, Some(addr(99)), Ok(sparse_group()), 1_500_000).unwrap();
    assert_eq!(g.meta_data.data_type, 0);
    assert_eq!(g.meta_data.version, 0);
    assert!(g.meta_data.is_initialized);
    assert_eq!(g.meta_data.extra_info, [0u8; 5]);
    assert_eq!(g.admin_ai, addr(201));
    assert_eq!(g.mango_program_id, addr(202));
    assert_eq!(g.mango_group, addr(203));
    assert_eq!(g.solana_vault, addr(206));
    assert_eq!(g.pickle_authority_pk, addr(99));
    assert_eq!(g.liquidation_deposit, 1_500_000);
    assert_eq!(g.locked_sol_multiplier_to_incentivize_keeper, 10_000_000);
    assert_eq!(KEEPER_MULTIPLIER, 10_000_000);
    assert_eq!(g.num_users, 0);
    assert_eq!(g.token_count_of_mango, 0);
    assert_eq!(g.value_locked_in_liquidation_pools, [0u64; 16]);
    assert_eq!(g.padding, [0u8; 256]);
}

#[test]
fn one_pool_for_two_tokens_is_missing() {
    let ctx = context(addr(99), vec![pool(30, A)]);
    let r = reconcile(&ctx, Some(addr(99)), Ok(sparse_group()), 0);
    assert_eq!(r.err(), Some(PickleError::TokenPoolsMissing));
}

#[test]
fn one_pool_too_many_is_missing() {
    let ctx = context(addr(99), vec![pool(30, A), pool(31, B), pool(32, C)]);
    let r = reconcile(&ctx, Some(addr(99)), Ok(sparse_group()), 0);
    assert_eq!(r.err(), Some(PickleError::TokenPoolsMissing));
}

#[test]
fn pool_of_another_token_is_invalid() {
    let ctx = context(addr(99), vec![pool(30, A), pool(31, C)]);
    let r = reconcile(&ctx, Some(addr(99)), Ok(sparse_group()), 0);
    assert_eq!(r.err(), Some(PickleError::InvalidMint));
}

#[test]
fn first_pool_of_another_token_is_invalid() {
    let ctx = context(addr(99), vec![pool(30, C), pool(31, B)]);
    let r = reconcile(&ctx, Some(addr(99)), Ok(sparse_group()), 0);
    assert_eq!(r.err(), Some(PickleError::InvalidMint));
}

#[test]
fn pools_in_the_wrong_order_are_invalid() {
    let ctx = context(addr(99), vec![pool(31, B), pool(30, A)]);
    let r = reconcile(&ctx, Some(addr(99)), Ok(sparse_group()), 0);
    assert_eq!(r.err(), Some(PickleError::InvalidMint));
}

#[test]
fn pool_without_a_mint_is_invalid() {
    let short = PoolAccount { key: addr(31), data: vec![B; 31] };
    let ctx = context(addr(99), vec![pool(30, A), short]);
    let r = reconcile(&ctx, Some(addr(99)), Ok(sparse_group()), 0);
    assert_eq!(r.err(), Some(PickleError::InvalidMint));
}

#[test]
fn another_authority_is_a_mismatch() {
    let ctx = context(addr(98), vec![pool(30, A), pool(31, B)]);
    let r = reconcile(&ctx, Some(addr(99)), Ok(sparse_group()), 0);
    assert_eq!(r.err(), Some(PickleError::AuthorityMismatch));
}

#[test]
fn no_derived_address_is_a_mismatch() {
    let ctx = context(addr(99), vec![pool(30, A), pool(31, B)]);
    let r = reconcile(&ctx, None, Ok(sparse_group()), 0);
    assert_eq!(r.err(), Some(PickleError::AuthorityMismatch));
}

#[test]
fn unloaded_mango_group_is_a_mango_error() {
    let ctx = context(addr(99), vec![pool(30, A), pool(31, B)]);
    let r = reconcile(&ctx, Some(addr(99)), Err(ReadFailure {}), 0);
    assert_eq!(r.err(), Some(PickleError::MangoError));
}

#[test]
fn checks_come_in_order() {
    let ctx = context(addr(98), vec![pool(30, C)]);
    let r = reconcile(&ctx, Some(addr(99)), Err(ReadFailure {}), 0);
    assert_eq!(r.err(), Some(PickleError::AuthorityMismatch));
    let ctx = context(addr(99), vec![pool(30, C)]);
    let r = reconcile(&ctx, Some(addr(99)), Err(ReadFailure {}), 0);
    assert_eq!(r.err(), Some(PickleError::MangoError));
    let r = reconcile(&ctx, Some(addr(99)), Ok(sparse_group()), 0);
    assert_eq!(r.err(), Some(PickleError::TokenPoolsMissing));
}

#[test]
fn quote_token_is_not_mirrored() {
    let group = group_of(&[(0, token(A, 20, 6)), (15, token(B, 21, 9))]);
    assert_eq!(count_tokens(&group), 1);
    let ctx = context(addr(99), vec![pool(30, A)]);
    let g = reconcile(&ctx, Some(addr(99)), Ok(group), 0).unwrap();
    assert_eq!(g.tokens[0], token(A, 20, 6));
    assert_eq!(g.tokens[15], TokenInfo::default());
    assert_eq!(g.token_pools[15], Address::default());
    let ctx = context(addr(99), vec![pool(30, A), pool(31, B)]);
    let r = reconcile(&ctx, Some(addr(99)), Ok(group), 0);
    assert_eq!(r.err(), Some(PickleError::TokenPoolsMissing));
}

#[test]
fn group_without_tokens_needs_no_pools() {
    let group = group_of(&[]);
    assert_eq!(count_tokens(&group), 0);
    let ctx = context(addr(99), vec![]);
    let g = reconcile(&ctx, Some(addr(99)), Ok(group), 7).unwrap();
    assert_eq!(g.tokens, [TokenInfo::default(); 16]);
    assert_eq!(g.token_pools, [Address::default(); 16]);
    assert_eq!(g.liquidation_deposit, 7);
}

#[test]
fn full_group_binds_fifteen_pools() {
    let mut slots = Vec::new();
    let mut pools = Vec::new();
    for i in 0..15u8 {
        slots.push((i as usize, token(100 + i, 120 + i, i)));
        pools.push(pool(140 + i, 100 + i));
    }
    let group = group_of(&slots);
    assert_eq!(count_tokens(&group), 15);
    let ctx = context(addr(99), pools);
    let g = reconcile(&ctx, Some(addr(99)), Ok(group), 0).unwrap();
    for i in 0..15u8 {
        assert_eq!(g.tokens[i as usize], token(100 + i, 120 + i, i));
        assert_eq!(g.token_pools[i as usize], addr(140 + i));
    }
    assert_eq!(g.tokens[15], TokenInfo::default());
    assert_eq!(g.token_pools[15], Address::default());
}

#[test]
fn unused_slot_keeps_nothing_of_the_mango_group() {
    let stale = TokenInfo { mint: Address::default(), root_bank: addr(21), decimals: 9 };
    let group = group_of(&[(0, token(A, 20, 6)), (1, stale)]);
    let tokens = mirror_tokens(&group);
    assert_eq!(tokens[0], token(A, 20, 6));
    assert_eq!(tokens[1], TokenInfo::default());
    assert_eq!(count_tokens(&group), 1);
}

#[test]
fn bind_pools_gives_the_pools_or_the_reason() {
    let group = sparse_group();
    let pools = bind_pools(&group, &vec![pool(30, A), pool(31, B)]).unwrap();
    let mut expected = [Address::default(); 16];
    expected[0] = addr(30);
    expected[2] = addr(31);
    assert_eq!(pools, expected);
    assert_eq!(bind_pools(&group, &vec![]).err(), Some(PickleError::TokenPoolsMissing));
    assert_eq!(bind_pools(&group, &vec![pool(30, A), pool(31, A)]).err(), Some(PickleError::InvalidMint));
}

#[test]
fn mint_is_the_first_thirty_two_bytes() {
    let mut data: Vec<u8> = (0..72u8).collect();
    let account = PoolAccount { key: addr(1), data: data.clone() };
    let mut first = [0u8; 32];
    for i in 0..32 {
        first[i] = i as u8;
    }
    assert_eq!(account.mint(), Some(Address::new(first)));
    data.truncate(32);
    assert_eq!(PoolAccount { key: addr(1), data: data.clone() }.mint(), Some(Address::new(first)));
    data.truncate(31);
    assert_eq!(PoolAccount { key: addr(1), data }.mint(), None);
    assert_eq!(PoolAccount { key: addr(1), data: vec![] }.mint(), None);
}

#[test]
fn addresses_compare_by_their_bytes() {
    let mut bytes = [5u8; 32];
    let a = Address::new(bytes);
    assert!(a.same(&addr(5)));
    bytes[31] = 6;
    assert!(!a.same(&Address::new(bytes)));
    assert_eq!(Address::new(bytes).to_bytes(), bytes);
    assert!(Address::default().is_default());
    assert_eq!(Address::default().to_bytes(), [0u8; 32]);
    let mut last = [0u8; 32];
    last[31] = 1;
    assert!(!Address::new(last).is_default());
}

#[test]
fn meta_data_new_keeps_its_arguments() {
    let m = MetaData::new(DataType::PickleGroup, 3, true);
    assert_eq!(m.data_type, 0);
    assert_eq!(m.version, 3);
    assert!(m.is_initialized);
    assert_eq!(m.extra_info, [0u8; 5]);
    let m = MetaData::new(DataType::PickleGroup, 0, false);
    assert!(!m.is_initialized);
    assert_eq!(DataType::PickleGroup.code(), 0);
    let d = MetaData::default();
    assert_eq!((d.data_type, d.version, d.is_initialized, d.extra_info), (0, 0, false, [0u8; 5]));
}

#[test]
fn errors_have_their_messages() {
    assert_eq!(PickleError::MangoError.message(), "Error while calling mango functions");
    assert_eq!(
        PickleError::TokenPoolsMissing.message(),
        "Please provide remaining accounts corresponding to token pools equal to number of mints in mango"
    );
    assert_eq!(PickleError::InvalidMint.message(), "Invalid mint (must currespond to mango token mint)");
    assert_eq!(
        PickleError::AuthorityMismatch.message(),
        "Authority must be the address derived for the pickle group"
    );
}

#[test]
fn authority_tag_is_its_text() {
    assert_eq!(&PICKLE_AUTHORITY[..], "PICKLE_AUTHORITY".as_bytes());
}

fn derived_for(ctx: &Context) -> (Address, u8) {
    let program = Pubkey::new_from_array(ctx.program_id.to_bytes());
    let key = ctx.accounts.pickle_group_ai.to_bytes();
    let (pda, bump) = Pubkey::find_program_address(&["PICKLE_AUTHORITY".as_bytes(), &key], &program);
    (Address::new(pda.to_bytes()), bump)
}

#[test]
fn derived_authority_initialises_the_group() {
    let mut ctx = context(addr(0), vec![pool(30, A), pool(31, B)]);
    let (pda, bump) = derived_for(&ctx);
    ctx.accounts.pickle_authority = pda;
    let g = init_pickle_group(&ctx, Ok(sparse_group()), 42).unwrap();
    assert_eq!(g.pickle_authority_pk, pda);
    assert_eq!(g.token_pools[2], addr(31));
    assert_eq!(g.liquidation_deposit, 42);
    let program = Pubkey::new_from_array(ctx.program_id.to_bytes());
    let key = ctx.accounts.pickle_group_ai.to_bytes();
    let again = Pubkey::create_program_address(&["PICKLE_AUTHORITY".as_bytes(), &key, &[bump]], &program);
    assert_eq!(again.ok().map(|p| p.to_bytes()), Some(pda.to_bytes()));
}

#[test]
fn derivation_gives_the_same_address_again() {
    let mut ctx = context(addr(0), vec![pool(30, A), pool(31, B)]);
    ctx.accounts.pickle_authority = derived_for(&ctx).0;
    assert!(init_pickle_group(&ctx, Ok(sparse_group()), 1).is_ok());
    assert!(init_pickle_group(&ctx, Ok(sparse_group()), 1).is_ok());
}

#[test]
fn any_other_authority_is_refused() {
    let mut ctx = context(addr(0), vec![pool(30, A), pool(31, B)]);
    let (pda, _) = derived_for(&ctx);
    for other in [ctx.accounts.pickle_group_ai, ctx.program_id, Address::default(), addr(99)] {
        ctx.accounts.pickle_authority = other;
        let r = init_pickle_group(&ctx, Ok(sparse_group()), 42);
        assert_eq!(r.err(), Some(PickleError::AuthorityMismatch));
    }
    let mut near = pda.to_bytes();
    near[0] ^= 1;
    ctx.accounts.pickle_authority = Address::new(near);
    assert_eq!(init_pickle_group(&ctx, Ok(sparse_group()), 42).err(), Some(PickleError::AuthorityMismatch));
}

#[test]
fn authority_depends_on_the_group_and_the_program() {
    let mut ctx = context(addr(0), vec![pool(30, A), pool(31, B)]);
    ctx.accounts.pickle_authority = derived_for(&ctx).0;
    let mut moved = ctx.clone();
    moved.accounts.pickle_group_ai = addr(77);
    assert_eq!(init_pickle_group(&moved, Ok(sparse_group()), 42).err(), Some(PickleError::AuthorityMismatch));
    let mut other_program = ctx.clone();
    other_program.program_id = addr(78);
    assert_eq!(
        init_pickle_group(&other_program, Ok(sparse_group()), 42).err(),
        Some(PickleError::AuthorityMismatch)
    );
}

#[test]
fn derived_authority_still_needs_matching_pools() {
    let mut ctx = context(addr(0), vec![pool(30, A)]);
    ctx.accounts.pickle_authority = derived_for(&ctx).0;
    assert_eq!(init_pickle_group(&ctx, Ok(sparse_group()), 42).err(), Some(PickleError::TokenPoolsMissing));
    ctx.remaining_accounts = vec![pool(30, A), pool(31, C)];
    assert_eq!(init_pickle_group(&ctx, Ok(sparse_group()), 42).err(), Some(PickleError::InvalidMint));
    assert_eq!(init_pickle_group(&ctx, Err(ReadFailure {}), 42).err(), Some(PickleError::MangoError));
}

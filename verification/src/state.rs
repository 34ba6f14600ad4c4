//! The records that the program keeps on chain, and their models.

use vstd::prelude::*;
use crate::address::{zero_address, Address};

verus! {

/// What kind of record an account holds.
#[derive(Clone, Copy, Debug, PartialEq, Eq, Structural)]
pub enum DataType {
    PickleGroup,
}

impl DataType {
    /// The byte that stands for the kind in a record.
    pub open spec fn spec_code(&self) -> u8 {
        0u8
    }

    /// The byte that stands for the kind in a record.
    pub fn code(&self) -> (r: u8)
        ensures
            r == self.spec_code(),
    {
        match self {
            DataType::PickleGroup => 0u8,
        }
    }
}

/// Model of [`MetaData`].
pub struct MetaDataView {
    pub data_type: u8,
    pub version: u8,
    pub is_initialized: bool,
    pub extra_info: Seq<u8>,
}

/// Stores meta information about the account on chain.
#[derive(Clone, Copy, Debug, PartialEq, Eq)]
pub struct MetaData {
    pub data_type: u8,
    pub version: u8,
    pub is_initialized: bool,
    pub extra_info: [u8; 5],
}

impl View for MetaData {
    type V = MetaDataView;

    open spec fn view(&self) -> MetaDataView {
        MetaDataView {
            data_type: self.data_type,
            version: self.version,
            is_initialized: self.is_initialized,
            extra_info: self.extra_info@,
        }
    }
}

/// The meta data that `MetaData::new` builds from its arguments.
pub open spec fn new_meta_data(data_type: DataType, version: u8, is_initialized: bool) -> MetaDataView {
    MetaDataView {
        data_type: data_type.spec_code(),
        version,
        is_initialized,
        extra_info: Seq::new(5, |i: int| 0u8),
    }
}

impl MetaData {
    /// Meta data of the given kind and version, with no extra information.
    pub fn new(data_type: DataType, version: u8, is_initialized: bool) -> (r: Self)
        ensures
            r@ == new_meta_data(data_type, version, is_initialized),
    {
        let r = MetaData {
            data_type: data_type.code(),
            version,
            is_initialized,
            extra_info: [0u8; 5],
        };
        assert(r.extra_info@ =~= Seq::new(5, |i: int| 0u8));
        r
    }
}

impl Default for MetaData {
    /// The meta data of an account that was never written.
    fn default() -> (r: Self)
        ensures
            r@ == (MetaDataView {
                data_type: 0,
                version: 0,
                is_initialized: false,
                extra_info: Seq::new(5, |i: int| 0u8),
            }),
    {
        let r = MetaData { data_type: 0, version: 0, is_initialized: false, extra_info: [0u8; 5] };
        assert(r.extra_info@ =~= Seq::new(5, |i: int| 0u8));
        r
    }
}

/// Model of [`TokenInfo`].
pub struct TokenInfoView {
    pub mint: Seq<u8>,
    pub root_bank: Seq<u8>,
    pub decimals: u8,
}

/// The entry of an unused token slot.
pub open spec fn empty_token() -> TokenInfoView {
    TokenInfoView { mint: zero_address(), root_bank: zero_address(), decimals: 0 }
}

/// One token of a mango group: its mint, its root bank and its decimals.
#[derive(Clone, Copy, Debug, PartialEq, Eq)]
pub struct TokenInfo {
    pub mint: Address,
    pub root_bank: Address,
    pub decimals: u8,
}

impl View for TokenInfo {
    type V = TokenInfoView;

    open spec fn view(&self) -> TokenInfoView {
        TokenInfoView { mint: self.mint@, root_bank: self.root_bank@, decimals: self.decimals }
    }
}

impl Default for TokenInfo {
    /// The entry of an unused token slot.
    fn default() -> (r: Self)
        ensures
            r@ == empty_token(),
    {
        TokenInfo { mint: Address::default(), root_bank: Address::default(), decimals: 0 }
    }
}

/// Model of [`PickleGroup`].
pub struct PickleGroupView {
    pub meta_data: MetaDataView,
    pub mango_program_id: Seq<u8>,
    pub mango_group: Seq<u8>,
    pub admin_ai: Seq<u8>,
    pub liquidation_deposit: u32,
    pub tokens: Seq<TokenInfoView>,
    pub token_count_of_mango: u8,
    pub token_pools: Seq<Seq<u8>>,
    pub num_users: u64,
    pub value_locked_in_liquidation_pools: Seq<u64>,
    pub solana_vault: Seq<u8>,
    pub locked_sol_multiplier_to_incentivize_keeper: u32,
    pub pickle_authority_pk: Seq<u8>,
    pub padding: Seq<u8>,
}

impl PickleGroupView {
    /// What holds of every group record: it has sixteen slots of each kind, the
    /// slot of the quote token is unused, and an unused slot holds neither a
    /// token nor a pool.
    pub open spec fn well_formed(self) -> bool {
        &&& self.tokens.len() == 16
        &&& self.token_pools.len() == 16
        &&& self.value_locked_in_liquidation_pools.len() == 16
        &&& self.tokens[15] == empty_token()
        &&& forall|i: int|
            0 <= i < 16 && (#[trigger] self.tokens[i]).mint == zero_address() ==> self.tokens[i]
                == empty_token() && self.token_pools[i] == zero_address()
    }
}

/// The group record of the program.
#[derive(Clone, Copy, Debug)]
pub struct PickleGroup {
    pub meta_data: MetaData,
    /// Program id of mango.
    pub mango_program_id: Address,
    /// The mango group that this group mirrors.
    pub mango_group: Address,
    /// Admin of the group.
    pub admin_ai: Address,
    /// Liquidation deposit, a fraction with six decimal digits.
    pub liquidation_deposit: u32,
    /// The tokens of the mango group, each at the slot it has there.
    pub tokens: [TokenInfo; 16],
    pub token_count_of_mango: u8,
    /// The pools that store liquidation tokens, slot by slot as `tokens`.
    pub token_pools: [Address; 16],
    /// Number of users registered.
    pub num_users: u64,
    /// Amount of each token locked in its pool.
    pub value_locked_in_liquidation_pools: [u64; 16],
    /// Vault that holds what is kept to pay keepers.
    pub solana_vault: Address,
    /// Share of the transaction fees kept for keepers, with four decimal digits.
    pub locked_sol_multiplier_to_incentivize_keeper: u32,
    /// The address derived for the group, which signs for its pools.
    pub pickle_authority_pk: Address,
    pub padding: [u8; 256],
}

impl View for PickleGroup {
    type V = PickleGroupView;

    open spec fn view(&self) -> PickleGroupView {
        PickleGroupView {
            meta_data: self.meta_data@,
            mango_program_id: self.mango_program_id@,
            mango_group: self.mango_group@,
            admin_ai: self.admin_ai@,
            liquidation_deposit: self.liquidation_deposit,
            tokens: Seq::new(16, |i: int| self.tokens@[i]@),
            token_count_of_mango: self.token_count_of_mango,
            token_pools: Seq::new(16, |i: int| self.token_pools@[i]@),
            num_users: self.num_users,
            value_locked_in_liquidation_pools: self.value_locked_in_liquidation_pools@,
            solana_vault: self.solana_vault@,
            locked_sol_multiplier_to_incentivize_keeper: self.locked_sol_multiplier_to_incentivize_keeper,
            pickle_authority_pk: self.pickle_authority_pk@,
            padding: self.padding@,
        }
    }
}

/// Model of [`PickleUser`].
pub struct PickleUserView {
    pub meta_data: MetaDataView,
    pub pickle_group_pk: Seq<u8>,
    pub owner_pk: Seq<u8>,
    pub mango_account_pk: Seq<u8>,
    pub tokens_locked_for_liquidation: Seq<u64>,
    pub solana_locked_for_transaction_fees: u64,
}

/// The record of one registered user.
#[derive(Clone, Copy, Debug)]
pub struct PickleUser {
    pub meta_data: MetaData,
    /// The group that the user registered with.
    pub pickle_group_pk: Address,
    pub owner_pk: Address,
    /// The user's mango account.
    pub mango_account_pk: Address,
    /// Amount of each token that the user locked for liquidation, slot by slot
    /// as the group's tokens.
    pub tokens_locked_for_liquidation: [u64; 16],
    /// What the user locked to pay keepers.
    pub solana_locked_for_transaction_fees: u64,
}

impl View for PickleUser {
    type V = PickleUserView;

    open spec fn view(&self) -> PickleUserView {
        PickleUserView {
            meta_data: self.meta_data@,
            pickle_group_pk: self.pickle_group_pk@,
            owner_pk: self.owner_pk@,
            mango_account_pk: self.mango_account_pk@,
            tokens_locked_for_liquidation: self.tokens_locked_for_liquidation@,
            solana_locked_for_transaction_fees: self.solana_locked_for_transaction_fees,
        }
    }
}

} // verus!

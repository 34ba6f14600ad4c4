//! The accounts that each instruction is given.

use vstd::prelude::*;
use crate::address::Address;

verus! {

/// Seed tag of the address derived as a group's authority.
pub const PICKLE_AUTHORITY: [u8; 16] = [80, 73, 67, 75, 76, 69, 95, 65, 85, 84, 72, 79, 82, 73, 84, 89];

/// The mint that a token account's data names: its first thirty-two bytes, if
/// it has that many.
pub open spec fn mint_of(data: Seq<u8>) -> Option<Seq<u8>> {
    if data.len() >= 32 {
        Some(data.subrange(0, 32))
    } else {
        None
    }
}

/// Model of [`PoolAccount`].
pub struct PoolAccountView {
    pub key: Seq<u8>,
    pub data: Seq<u8>,
}

/// An account handed to an instruction after the named ones: its address and
/// the data it holds.
#[derive(Clone, Debug, PartialEq, Eq)]
pub struct PoolAccount {
    pub key: Address,
    pub data: Vec<u8>,
}

impl View for PoolAccount {
    type V = PoolAccountView;

    open spec fn view(&self) -> PoolAccountView {
        PoolAccountView { key: self.key@, data: self.data@ }
    }
}

/// Models of the accounts of a list, in its order.
pub open spec fn accounts_view(accounts: Seq<PoolAccount>) -> Seq<PoolAccountView> {
    Seq::new(accounts.len(), |i: int| accounts[i]@)
}

impl PoolAccount {
    /// The mint of the token account, or `None` where the data is too short to
    /// name one.
    pub fn mint(&self) -> (r: Option<Address>)
        ensures
            match r {
                Some(m) => mint_of(self.data@) == Some(m@),
                None => mint_of(self.data@) is None,
            },
    {
        if self.data.len() < 32 {
            return None;
        }
        let mut bytes: [u8; 32] = [0u8; 32];
        let mut i: usize = 0;
        while i < 32
            invariant
                i <= 32,
                self.data.len() >= 32,
                forall|k: int| 0 <= k < i ==> bytes@[k] == self.data@[k],
            decreases 32 - i,
        {
            bytes[i] = self.data[i];
            i += 1;
        }
        let m = Address::new(bytes);
        assert(m@ =~= self.data@.subrange(0, 32));
        Some(m)
    }
}

/// Model of [`InitPickleGroup`].
pub struct InitPickleGroupView {
    pub admin: Seq<u8>,
    pub mango_program_id: Seq<u8>,
    pub mango_group: Seq<u8>,
    pub pickle_group_ai: Seq<u8>,
    pub pickle_authority: Seq<u8>,
    pub solana_mint: Seq<u8>,
    pub solana_vault: Seq<u8>,
    pub system_program: Seq<u8>,
    pub token_program: Seq<u8>,
    pub rent: Seq<u8>,
}

/// The named accounts of the instruction that initialises a group.
#[derive(Clone, Copy, Debug, PartialEq, Eq)]
pub struct InitPickleGroup {
    /// Who pays for the group and becomes its admin.
    pub admin: Address,
    pub mango_program_id: Address,
    /// The mango group to mirror.
    pub mango_group: Address,
    /// The account that becomes the group record.
    pub pickle_group_ai: Address,
    /// Must be the address derived from the authority tag and the address of
    /// the group record.
    pub pickle_authority: Address,
    pub solana_mint: Address,
    /// Vault that holds what is kept to pay keepers.
    pub solana_vault: Address,
    pub system_program: Address,
    pub token_program: Address,
    pub rent: Address,
}

impl View for InitPickleGroup {
    type V = InitPickleGroupView;

    open spec fn view(&self) -> InitPickleGroupView {
        InitPickleGroupView {
            admin: self.admin@,
            mango_program_id: self.mango_program_id@,
            mango_group: self.mango_group@,
            pickle_group_ai: self.pickle_group_ai@,
            pickle_authority: self.pickle_authority@,
            solana_mint: self.solana_mint@,
            solana_vault: self.solana_vault@,
            system_program: self.system_program@,
            token_program: self.token_program@,
            rent: self.rent@,
        }
    }
}

/// The named accounts of the instruction that registers a user.
#[derive(Clone, Copy, Debug, PartialEq, Eq)]
pub struct RegisterNewUser {
    pub user: Address,
    pub user_pickle_account: Address,
}

/// Model of [`Context`].
pub struct ContextView {
    pub program_id: Seq<u8>,
    pub accounts: InitPickleGroupView,
    pub remaining_accounts: Seq<PoolAccountView>,
}

/// What an instruction runs with: the program's own id, the named accounts and
/// the accounts that follow them.
#[derive(Clone, Debug, PartialEq, Eq)]
pub struct Context {
    pub program_id: Address,
    pub accounts: InitPickleGroup,
    pub remaining_accounts: Vec<PoolAccount>,
}

impl View for Context {
    type V = ContextView;

    open spec fn view(&self) -> ContextView {
        ContextView {
            program_id: self.program_id@,
            accounts: self.accounts@,
            remaining_accounts: accounts_view(self.remaining_accounts@),
        }
    }
}

} // verus!

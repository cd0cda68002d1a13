//! The model of on-chain account state owned by an execution context.

use vstd::prelude::*;

use crate::identity::{spec_default_identity, system_program_identity, Identity};

verus! {

/// The state of one simulated on-chain account.
#[derive(Debug)]
pub struct AccountState {
    /// The account's balance in lamports.
    pub lamports: u64,
    /// The raw data bytes held by the account.
    pub data: Vec<u8>,
    /// The identity of the program that owns the account.
    pub owner: Identity,
    /// Whether the account holds a loaded, executable program.
    pub executable: bool,
    /// The epoch at which the account next owes rent.
    pub rent_epoch: u64,
}

/// The mathematical snapshot of an account's state.
pub ghost struct AccountSnapshot {
    pub lamports: u64,
    pub data: Seq<u8>,
    pub owner: Seq<u8>,
    pub executable: bool,
    pub rent_epoch: u64,
}

impl View for AccountState {
    type V = AccountSnapshot;

    open spec fn view(&self) -> AccountSnapshot {
        AccountSnapshot {
            lamports: self.lamports,
            data: self.data@,
            owner: self.owner@,
            executable: self.executable,
            rent_epoch: self.rent_epoch,
        }
    }
}

/// The snapshot of a plain, empty account owned by the system program.
pub open spec fn spec_system_account(lamports: u64) -> AccountSnapshot {
    AccountSnapshot {
        lamports: lamports,
        data: Seq::empty(),
        owner: spec_default_identity(),
        executable: false,
        rent_epoch: 0u64,
    }
}

/// Create a basic system-owned account holding the given balance.
pub fn create_system_account(lamports: u64) -> (r: AccountState)
    ensures
        r@ == spec_system_account(lamports),
{
    let r = AccountState {
        lamports,
        data: Vec::new(),
        owner: system_program_identity(),
        executable: false,
        rent_epoch: 0u64,
    };
    proof {
        assert(r@.data =~= spec_system_account(lamports).data);
    }
    r
}

} // verus!

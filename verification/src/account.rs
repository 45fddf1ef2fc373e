//! Account handles as the host presents them: an owner identifier, a signer
//! flag, a native balance, and a data buffer sized at account creation.

use vstd::prelude::*;
use crate::keys::Pubkey;
use crate::keys::PUBKEY_LEN;

verus! {

/// Mathematical model of an account handle.
#[verifier::ext_equal]
pub struct AccountView {
    pub key: Seq<u8>,
    pub owner: Seq<u8>,
    pub is_signer: bool,
    pub lamports: u64,
    pub data: Seq<u8>,
}

impl AccountView {
    pub open spec fn wf(self) -> bool {
        &&& self.key.len() == PUBKEY_LEN
        &&& self.owner.len() == PUBKEY_LEN
    }

    /// The same account with its data buffer replaced.
    pub open spec fn with_data(self, data: Seq<u8>) -> AccountView {
        AccountView { data, ..self }
    }

    /// The same account with its balance replaced.
    pub open spec fn with_lamports(self, lamports: u64) -> AccountView {
        AccountView { lamports, ..self }
    }
}

/// One account as handed in by the host for a single invocation: this core
/// owns it exclusively for the duration of the call.
pub struct Account {
    /// The account's own address.
    pub key: Pubkey,
    /// The program that owns the account and alone may mutate its data.
    pub owner: Pubkey,
    /// Whether this account cryptographically authorized the transaction.
    pub is_signer: bool,
    /// The native balance.
    pub lamports: u64,
    /// The persisted data region, sized at account creation.
    pub data: Vec<u8>,
}

impl View for Account {
    type V = AccountView;

    open spec fn view(&self) -> AccountView {
        AccountView {
            key: self.key@,
            owner: self.owner@,
            is_signer: self.is_signer,
            lamports: self.lamports,
            data: self.data@,
        }
    }
}

impl Account {
    pub open spec fn wf(&self) -> bool {
        self@.wf()
    }
}

} // verus!

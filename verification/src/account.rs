//! Staged account copies.
//!
//! A handler never touches live storage: the host hands it a staged copy of
//! every account the instruction names, and applies the copies a handler
//! returns only if the whole instruction succeeds.

use vstd::prelude::*;

verus! {

/// Mathematical image of a staged account.
#[verifier::ext_equal]
pub struct AccountModel {
    /// The account's address.
    pub key: Seq<u8>,
    /// Balance in lamports.
    pub lamports: u64,
    /// The program that owns the account's storage.
    pub owner: Seq<u8>,
    /// Raw record bytes.
    pub data: Seq<u8>,
    /// Whether the transaction carries this account's signature.
    pub is_signer: bool,
}

impl AccountModel {
    /// Addresses are exactly 32 bytes wide.
    pub open spec fn wf(self) -> bool {
        self.key.len() == 32 && self.owner.len() == 32
    }
}

/// A staged copy of one account, as the host hands it to a handler.
#[derive(Clone, Debug)]
pub struct StagedAccount {
    /// The account's address.
    pub key: [u8; 32],
    /// Balance in lamports.
    pub lamports: u64,
    /// The program that owns the account's storage.
    pub owner: [u8; 32],
    /// Raw record bytes.
    pub data: Vec<u8>,
    /// Whether the transaction carries this account's signature.
    pub is_signer: bool,
}

impl View for StagedAccount {
    type V = AccountModel;

    open spec fn view(&self) -> AccountModel {
        AccountModel {
            key: self.key@,
            lamports: self.lamports,
            owner: self.owner@,
            data: self.data@,
            is_signer: self.is_signer,
        }
    }
}

impl StagedAccount {
    /// True when the account holds no record bytes at all.
    pub fn data_is_empty(&self) -> (r: bool)
        ensures
            r == (self@.data.len() == 0),
    {
        self.data.len() == 0
    }
}

/// The images of a whole staged account list.
pub open spec fn account_models(s: Seq<StagedAccount>) -> Seq<AccountModel> {
    s.map_values(|a: StagedAccount| a@)
}

} // verus!

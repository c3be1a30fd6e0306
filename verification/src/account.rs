//! Account snapshots and the borrowed projection of one that a subscriber is shown.

use vstd::prelude::*;
use crate::key::AccountKey;

verus! {

/// Key by which the caller finds again the transaction that caused an update.
#[derive(Clone, Copy, Debug, PartialEq, Eq, Structural)]
pub struct TransactionRef {
    pub id: u64,
}

/// An owned snapshot of an account's state.
#[derive(Debug)]
pub struct AccountSharedData {
    pub lamports: u64,
    pub data: Vec<u8>,
    pub owner: AccountKey,
    pub executable: bool,
    pub rent_epoch: u64,
}

/// What an [`AccountSharedData`] holds.
pub struct AccountModel {
    pub lamports: u64,
    pub data: Seq<u8>,
    pub owner: Seq<u8>,
    pub executable: bool,
    pub rent_epoch: u64,
}

impl View for AccountSharedData {
    type V = AccountModel;

    open spec fn view(&self) -> AccountModel {
        AccountModel {
            lamports: self.lamports,
            data: self.data@,
            owner: self.owner@,
            executable: self.executable,
            rent_epoch: self.rent_epoch,
        }
    }
}

/// An account as it is read back from stored state during startup replay.
#[derive(Debug)]
pub struct AccountForGeyser<'a> {
    pub pubkey: &'a AccountKey,
    pub lamports: u64,
    pub owner: &'a AccountKey,
    pub executable: bool,
    pub rent_epoch: u64,
    pub data: &'a [u8],
}

/// The projection of an account that a subscriber receives. It borrows the account's
/// bytes and lives no longer than the call that built it.
#[derive(Debug)]
pub struct ReplicaAccountInfoV3<'a> {
    pub pubkey: &'a [u8],
    pub lamports: u64,
    pub owner: &'a [u8],
    pub executable: bool,
    pub rent_epoch: u64,
    pub data: &'a [u8],
    pub write_version: u64,
    pub txn: Option<TransactionRef>,
}

/// What a [`ReplicaAccountInfoV3`] shows.
pub struct AccountInfoModel {
    pub pubkey: Seq<u8>,
    pub account: AccountModel,
    pub write_version: u64,
    pub txn: Option<TransactionRef>,
}

impl<'a> View for ReplicaAccountInfoV3<'a> {
    type V = AccountInfoModel;

    open spec fn view(&self) -> AccountInfoModel {
        AccountInfoModel {
            pubkey: self.pubkey@,
            account: AccountModel {
                lamports: self.lamports,
                data: self.data@,
                owner: self.owner@,
                executable: self.executable,
                rent_epoch: self.rent_epoch,
            },
            write_version: self.write_version,
            txn: self.txn,
        }
    }
}

impl AccountSharedData {
    /// An independent copy of the snapshot: nothing of it is shared with `self`.
    pub fn duplicate(&self) -> (copy: AccountSharedData)
        ensures
            copy@ == self@,
    {
        let mut data: Vec<u8> = Vec::new();
        let mut i: usize = 0;
        while i < self.data.len()
            invariant
                0 <= i <= self.data.len(),
                data@ == self.data@.take(i as int),
            decreases self.data.len() - i,
        {
            data.push(self.data[i]);
            assert(self.data@.take(i + 1) =~= self.data@.take(i as int).push(self.data@[i as int]));
            i += 1;
        }
        assert(self.data@.take(i as int) =~= self.data@);
        AccountSharedData {
            lamports: self.lamports,
            data,
            owner: self.owner,
            executable: self.executable,
            rent_epoch: self.rent_epoch,
        }
    }
}

/// The projection of a live account under `pubkey`, with the transaction that wrote it.
pub fn accountinfo_from_shared_account_data<'a>(
    account: &'a AccountSharedData,
    txn: &Option<TransactionRef>,
    pubkey: &'a AccountKey,
    write_version: u64,
) -> (info: ReplicaAccountInfoV3<'a>)
    ensures
        info@ == (AccountInfoModel {
            pubkey: pubkey@,
            account: account@,
            write_version,
            txn: *txn,
        }),
{
    ReplicaAccountInfoV3 {
        pubkey: pubkey.bytes.as_slice(),
        lamports: account.lamports,
        owner: account.owner.bytes.as_slice(),
        executable: account.executable,
        rent_epoch: account.rent_epoch,
        data: account.data.as_slice(),
        write_version,
        txn: *txn,
    }
}

/// The projection of a stored account. Its write version is 0 until the caller sets it,
/// and it names no transaction.
pub fn accountinfo_from_account_for_geyser<'a>(account: &'a AccountForGeyser<'_>) -> (info:
    ReplicaAccountInfoV3<'a>)
    ensures
        info@ == (AccountInfoModel {
            pubkey: account.pubkey@,
            account: AccountModel {
                lamports: account.lamports,
                data: account.data@,
                owner: account.owner@,
                executable: account.executable,
                rent_epoch: account.rent_epoch,
            },
            write_version: 0,
            txn: None,
        }),
{
    ReplicaAccountInfoV3 {
        pubkey: account.pubkey.bytes.as_slice(),
        lamports: account.lamports,
        owner: account.owner.bytes.as_slice(),
        executable: account.executable,
        rent_epoch: account.rent_epoch,
        data: account.data,
        write_version: 0,
        txn: None,
    }
}

} // verus!

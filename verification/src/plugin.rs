//! What a subscriber offers to the notifier, and the record of one call of it.

use vstd::prelude::*;
use crate::account::ReplicaAccountInfoV3;
use crate::key::AccountKey;

verus! {

/// Signature of a transaction.
#[derive(Clone, Copy, Debug, PartialEq, Eq)]
pub struct Signature {
    pub bytes: [u8; 64],
}

/// The accounts that one transaction wrote, projected together.
#[derive(Debug)]
pub struct ReplicaTransactionAccountsInfo<'a> {
    pub signature: &'a Signature,
    pub slot: u64,
    pub index: usize,
    pub accounts: &'a [ReplicaAccountInfoV3<'a>],
}

/// A subscriber to account notifications. Every callback reports success or an error
/// text; the notifier never retries and never passes an error on to the producer.
pub trait AccountSubscriber {
    /// The name under which failures of this subscriber are reported.
    fn name(&self) -> String;

    /// One account changed at `slot`, or is replayed during startup.
    fn update_account(&self, account: &ReplicaAccountInfoV3<'_>, slot: u64, is_startup: bool) -> Result<
        (),
        String,
    >;

    /// The replay of stored accounts has ended.
    fn notify_end_of_startup(&self) -> Result<(), String>;

    /// All accounts written by one transaction.
    fn notify_transaction_accounts(&self, info: &ReplicaTransactionAccountsInfo<'_>) -> Result<
        (),
        String,
    >;

    /// Whether this subscriber wants the grouped notification per transaction.
    fn transaction_accounts_notifications_enabled(&self) -> bool;

    /// Owners whose read-only accounts this subscriber wants included as well.
    fn transaction_accounts_include_readonly_owners(&self) -> Vec<AccountKey>;
}

/// The record of one call of a subscriber.
#[derive(Debug)]
pub struct Delivery {
    /// The subscriber's name.
    pub plugin: String,
    /// What the subscriber answered.
    pub result: Result<(), String>,
    /// How long the call took, in microseconds.
    pub elapsed_us: u64,
}

/// The record of one account update handed to one subscriber.
#[derive(Debug)]
pub struct AccountDelivery {
    /// The subscriber's name.
    pub plugin: String,
    /// The account's key as Base58 text.
    pub account: String,
    /// The slot of the update.
    pub slot: u64,
    /// What the subscriber answered.
    pub result: Result<(), String>,
    /// How long the call took, in microseconds.
    pub elapsed_us: u64,
}

} // verus!

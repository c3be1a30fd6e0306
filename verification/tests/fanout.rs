use accounts_fanout::account::{
    accountinfo_from_account_for_geyser, accountinfo_from_shared_account_data, AccountForGeyser,
    AccountSharedData, ReplicaAccountInfoV3, TransactionRef,
};
use accounts_fanout::dispatch::{
    AsyncAccountsDispatch, DispatchMessage, QueuedAccountUpdate, TrySendError,
    ASYNC_ACCOUNTS_DISPATCH_CHANNEL_CAPACITY,
};
use accounts_fanout::key::AccountKey;
use accounts_fanout::notifier::{
    deliver_unless_queued, dispatch_queued_update, worker_step, WorkerStep, notify_plugins_of_account_update_inner, transaction_account_infos,
    AccountUpdateOutcome, AccountsUpdateNotifierImpl, InlineCause,
};
use accounts_fanout::owners::{canonical_owner_set, insert_owner};
use accounts_fanout::plugin::{AccountSubscriber, ReplicaTransactionAccountsInfo, Signature};
use crossbeam_channel::Receiver;
use std::cell::RefCell;

/// What a test subscriber saw in one `update_account` call.
#[derive(Debug, Clone, PartialEq, Eq)]
struct Seen {
    pubkey: Vec<u8>,
    lamports: u64,
    owner: Vec<u8>,
    executable: bool,
    rent_epoch: u64,
    data: Vec<u8>,
    write_version: u64,
    txn: Option<u64>,
    slot: u64,
    is_startup: bool,
}

struct Recorder {
    name: String,
    fails: bool,
    wants_transactions: bool,
    owners: Vec<AccountKey>,
    seen: RefCell<Vec<Seen>>,
    batches: RefCell<Vec<(u64, usize, Vec<u8>, Vec<(u64, Option<u64>)>)>>,
    ends: RefCell<u32>,
}

impl Recorder {
    fn new(name: &str, fails: bool) -> Recorder {
        Recorder {
            name: name.to_string(),
            fails,
            wants_transactions: true,
            owners: Vec::new(),
            seen: RefCell::new(Vec::new()),
            batches: RefCell::new(Vec::new()),
            ends: RefCell::new(0),
        }
    }

    fn answer(&self) -> Result<(), String> {
        if self.fails {
            Err(format!("{} is down", self.name))
        } else {
            Ok(())
        }
    }
}

impl AccountSubscriber for Recorder {
    fn name(&self) -> String {
        self.name.clone()
    }

    fn update_account(
        &self,
        account: &ReplicaAccountInfoV3<'_>,
        slot: u64,
        is_startup: bool,
    ) -> Result<(), String> {
        self.seen.borrow_mut().push(Seen {
            pubkey: account.pubkey.to_vec(),
            lamports: account.lamports,
            owner: account.owner.to_vec(),
            executable: account.executable,
            rent_epoch: account.rent_epoch,
            data: account.data.to_vec(),
            write_version: account.write_version,
            txn: account.txn.map(|t| t.id),
            slot,
            is_startup,
        });
        self.answer()
    }

    fn notify_end_of_startup(&self) -> Result<(), String> {
        *self.ends.borrow_mut() += 1;
        self.answer()
    }

    fn notify_transaction_accounts(
        &self,
        info: &ReplicaTransactionAccountsInfo<'_>,
    ) -> Result<(), String> {
        let versions: Vec<(u64, Option<u64>)> =
            info.accounts.iter().map(|a| (a.write_version, a.txn.map(|t| t.id))).collect();
        self.batches.borrow_mut().push((
            info.slot,
            info.index,
            info.signature.bytes.to_vec(),
            versions,
        ));
        self.answer()
    }

    fn transaction_accounts_notifications_enabled(&self) -> bool {
        self.wants_transactions
    }

    fn transaction_accounts_include_readonly_owners(&self) -> Vec<AccountKey> {
        self.owners.clone()
    }
}

fn key(byte: u8) -> AccountKey {
    AccountKey::new([byte; 32])
}

fn account(lamports: u64, data: Vec<u8>) -> AccountSharedData {
    AccountSharedData { lamports, data, owner: key(9), executable: false, rent_epoch: 7 }
}

type Held = AccountsUpdateNotifierImpl<Receiver<DispatchMessage>>;

/// A notifier whose "worker" is the receiving end itself, kept for the test to drain.
fn notifier(snapshot: bool, queued: bool, transactions: bool) -> Held {
    AccountsUpdateNotifierImpl::new(snapshot, queued, transactions, |receiver| receiver)
}

fn three_subscribers() -> Vec<Recorder> {
    vec![Recorder::new("a", true), Recorder::new("b", false), Recorder::new("c", false)]
}

#[test]
fn failing_subscriber_does_not_stop_the_others() {
    let plugins = three_subscribers();
    let acct = account(5, vec![1, 2, 3]);
    let pubkey = key(0);
    let info = accountinfo_from_shared_account_data(&acct, &None, &pubkey, 11);
    let deliveries = notify_plugins_of_account_update_inner(&plugins, &info, 42, false);
    assert_eq!(deliveries.len(), 3);
    assert_eq!(deliveries[0].plugin, "a");
    assert_eq!(deliveries[0].result, Err("a is down".to_string()));
    assert_eq!(deliveries[1].plugin, "b");
    assert_eq!(deliveries[1].result, Ok(()));
    assert_eq!(deliveries[2].plugin, "c");
    assert_eq!(deliveries[2].result, Ok(()));
    for plugin in plugins.iter() {
        let seen = plugin.seen.borrow();
        assert_eq!(seen.len(), 1);
        assert_eq!(seen[0].slot, 42);
        assert_eq!(seen[0].write_version, 11);
        assert_eq!(seen[0].data, vec![1, 2, 3]);
        assert!(!seen[0].is_startup);
    }
}

#[test]
fn delivery_names_the_account_in_base58() {
    let plugins = vec![Recorder::new("only", false)];
    let acct = account(1, vec![]);
    let zero = key(0);
    let info = accountinfo_from_shared_account_data(&acct, &None, &zero, 0);
    let deliveries = notify_plugins_of_account_update_inner(&plugins, &info, 3, true);
    assert_eq!(deliveries[0].account, "11111111111111111111111111111111");
    assert_eq!(deliveries[0].slot, 3);
    let ones = key(255);
    let info = accountinfo_from_shared_account_data(&acct, &None, &ones, 0);
    let deliveries = notify_plugins_of_account_update_inner(&plugins, &info, 3, true);
    assert_eq!(deliveries[0].account, "JEKNVnkbo3jma5nREBBJCDoXFVeKkD56V3xKrvRmWxFG");
}

#[test]
fn no_subscriber_no_delivery() {
    let plugins: Vec<Recorder> = Vec::new();
    let acct = account(5, vec![1]);
    let pubkey = key(1);
    let info = accountinfo_from_shared_account_data(&acct, &None, &pubkey, 1);
    assert!(notify_plugins_of_account_update_inner(&plugins, &info, 1, false).is_empty());
    let mut notifier = notifier(true, false, true);
    assert!(notifier.notify_end_of_restore_from_snapshot(&plugins).is_empty());
    let sig = Signature { bytes: [3; 64] };
    let k = key(1);
    let batch = [(&k, &acct)];
    assert!(notifier.notify_transaction_accounts(&plugins, 1, &sig, 0, &batch, 100).is_empty());
    assert!(!notifier.transaction_accounts_notifications_enabled(&plugins));
    assert!(notifier.transaction_accounts_include_readonly_owners(&plugins).is_empty());
    match notifier.notify_account_update(&plugins, 1, &acct, &None, &k, 1, 0) {
        AccountUpdateOutcome::Delivered { cause, deliveries } => {
            assert_eq!(cause, InlineCause::Synchronous);
            assert!(deliveries.is_empty());
        }
        AccountUpdateOutcome::Queued => panic!("no queue to take it"),
    }
    assert!(notifier.stop().is_none());
}

#[test]
fn projection_of_a_live_account() {
    let acct = AccountSharedData {
        lamports: 77,
        data: vec![4, 5],
        owner: key(8),
        executable: true,
        rent_epoch: 3,
    };
    let pubkey = key(2);
    let txn = Some(TransactionRef { id: 12 });
    let info = accountinfo_from_shared_account_data(&acct, &txn, &pubkey, 9);
    assert_eq!(info.pubkey, &[2u8; 32][..]);
    assert_eq!(info.lamports, 77);
    assert_eq!(info.owner, &[8u8; 32][..]);
    assert!(info.executable);
    assert_eq!(info.rent_epoch, 3);
    assert_eq!(info.data, &[4u8, 5][..]);
    assert_eq!(info.write_version, 9);
    assert_eq!(info.txn, txn);
}

#[test]
fn projection_of_a_stored_account() {
    let pubkey = key(2);
    let owner = key(6);
    let data = [1u8, 2, 3];
    let stored = AccountForGeyser {
        pubkey: &pubkey,
        lamports: 10,
        owner: &owner,
        executable: false,
        rent_epoch: 1,
        data: &data,
    };
    let info = accountinfo_from_account_for_geyser(&stored);
    assert_eq!(info.pubkey, &[2u8; 32][..]);
    assert_eq!(info.owner, &[6u8; 32][..]);
    assert_eq!(info.lamports, 10);
    assert_eq!(info.data, &data[..]);
    assert_eq!(info.write_version, 0);
    assert_eq!(info.txn, None);
}

#[test]
fn restore_from_snapshot_is_flagged_as_startup() {
    let plugins = three_subscribers();
    let notifier = notifier(true, false, false);
    assert!(notifier.snapshot_notifications_enabled());
    let pubkey = key(2);
    let owner = key(6);
    let data = [1u8, 2, 3];
    let stored = AccountForGeyser {
        pubkey: &pubkey,
        lamports: 10,
        owner: &owner,
        executable: false,
        rent_epoch: 1,
        data: &data,
    };
    let deliveries = notifier.notify_account_restore_from_snapshot(&plugins, 5, 123, &stored);
    assert_eq!(deliveries.len(), 3);
    assert!(deliveries[0].result.is_err());
    for plugin in plugins.iter() {
        let seen = plugin.seen.borrow();
        assert_eq!(seen.len(), 1);
        assert!(seen[0].is_startup);
        assert_eq!(seen[0].write_version, 123);
        assert_eq!(seen[0].slot, 5);
        assert_eq!(seen[0].txn, None);
        assert_eq!(seen[0].lamports, 10);
    }
}

#[test]
fn end_of_restore_reaches_every_subscriber() {
    let plugins = three_subscribers();
    let notifier = notifier(false, false, false);
    assert!(!notifier.snapshot_notifications_enabled());
    let deliveries = notifier.notify_end_of_restore_from_snapshot(&plugins);
    assert_eq!(deliveries.len(), 3);
    assert_eq!(deliveries[0].result, Err("a is down".to_string()));
    assert_eq!(deliveries[1].result, Ok(()));
    assert_eq!(deliveries[2].plugin, "c");
    for plugin in plugins.iter() {
        assert_eq!(*plugin.ends.borrow(), 1);
    }
}

#[test]
fn batch_write_versions_count_up_from_the_base() {
    let a = account(1, vec![]);
    let b = account(2, vec![]);
    let c = account(3, vec![]);
    let (k1, k2, k3) = (key(1), key(2), key(3));
    let batch = [(&k1, &a), (&k2, &b), (&k3, &c)];
    let infos = transaction_account_infos(&batch, 100);
    let versions: Vec<u64> = infos.iter().map(|i| i.write_version).collect();
    assert_eq!(versions, vec![100, 101, 102]);
    assert_eq!(infos[1].pubkey, &[2u8; 32][..]);
    assert_eq!(infos[2].lamports, 3);
    assert!(infos.iter().all(|i| i.txn.is_none()));
}

#[test]
fn batch_write_versions_stop_at_the_largest() {
    let a = account(1, vec![]);
    let k = key(1);
    let batch = [(&k, &a), (&k, &a), (&k, &a)];
    let infos = transaction_account_infos(&batch, u64::MAX - 1);
    let versions: Vec<u64> = infos.iter().map(|i| i.write_version).collect();
    assert_eq!(versions, vec![u64::MAX - 1, u64::MAX, u64::MAX]);
    assert!(transaction_account_infos(&[], 5).is_empty());
}

#[test]
fn transaction_accounts_go_to_those_who_want_them() {
    let mut plugins = three_subscribers();
    plugins[1].wants_transactions = false;
    let notifier = notifier(false, false, true);
    let a = account(1, vec![]);
    let (k1, k2, k3) = (key(1), key(2), key(3));
    let batch = [(&k1, &a), (&k2, &a), (&k3, &a)];
    let sig = Signature { bytes: [7; 64] };
    let deliveries = notifier.notify_transaction_accounts(&plugins, 9, &sig, 4, &batch, 100);
    assert_eq!(deliveries.len(), 3);
    assert_eq!(deliveries[0].as_ref().unwrap().result, Err("a is down".to_string()));
    assert!(deliveries[1].is_none());
    assert_eq!(deliveries[2].as_ref().unwrap().result, Ok(()));
    assert_eq!(deliveries[2].as_ref().unwrap().plugin, "c");
    assert!(plugins[1].batches.borrow().is_empty());
    for i in [0usize, 2] {
        let batches = plugins[i].batches.borrow();
        assert_eq!(batches.len(), 1);
        assert_eq!(batches[0].0, 9);
        assert_eq!(batches[0].1, 4);
        assert_eq!(batches[0].2, vec![7u8; 64]);
        assert_eq!(batches[0].3, vec![(100, None), (101, None), (102, None)]);
    }
    assert!(notifier.transaction_accounts_notifications_enabled(&plugins));
}

#[test]
fn transaction_accounts_switched_off() {
    let plugins = three_subscribers();
    let notifier = notifier(false, false, false);
    let a = account(1, vec![]);
    let k1 = key(1);
    let batch = [(&k1, &a)];
    let sig = Signature { bytes: [7; 64] };
    assert!(notifier.notify_transaction_accounts(&plugins, 9, &sig, 4, &batch, 100).is_empty());
    assert!(plugins.iter().all(|p| p.batches.borrow().is_empty()));
    assert!(!notifier.transaction_accounts_notifications_enabled(&plugins));
    let mut declaring = three_subscribers();
    declaring[0].owners = vec![key(1)];
    assert!(notifier.transaction_accounts_include_readonly_owners(&declaring).is_empty());
}

#[test]
fn nobody_wants_transaction_accounts() {
    let mut plugins = three_subscribers();
    for plugin in plugins.iter_mut() {
        plugin.wants_transactions = false;
    }
    let notifier = notifier(false, false, true);
    assert!(!notifier.transaction_accounts_notifications_enabled(&plugins));
    plugins[2].wants_transactions = true;
    assert!(notifier.transaction_accounts_notifications_enabled(&plugins));
}

#[test]
fn readonly_owners_are_sorted_and_unique() {
    let (x, y, z) = (key(1), key(2), key(3));
    let mut plugins = vec![Recorder::new("a", false), Recorder::new("b", false)];
    plugins[0].owners = vec![y, x];
    plugins[1].owners = vec![z, y];
    let notifier = notifier(false, false, true);
    assert_eq!(notifier.transaction_accounts_include_readonly_owners(&plugins), vec![x, y, z]);
    plugins.reverse();
    assert_eq!(notifier.transaction_accounts_include_readonly_owners(&plugins), vec![x, y, z]);
}

#[test]
fn canonical_owner_set_orders_by_bytes() {
    let mut low = [0u8; 32];
    low[31] = 200;
    let mut high = [0u8; 32];
    high[0] = 1;
    let (low, high) = (AccountKey::new(low), AccountKey::new(high));
    assert!(low.less_than(&high));
    assert!(!high.less_than(&low));
    assert!(!low.less_than(&low));
    assert_eq!(canonical_owner_set(&vec![high, low, high, low]), vec![low, high]);
    assert_eq!(canonical_owner_set(&vec![low, high]), vec![low, high]);
    assert!(canonical_owner_set(&Vec::new()).is_empty());
    let mut sorted = vec![low, high];
    insert_owner(&mut sorted, key(0));
    insert_owner(&mut sorted, high);
    insert_owner(&mut sorted, key(255));
    assert_eq!(sorted, vec![key(0), low, high, key(255)]);
}

#[test]
fn envelope_owns_its_snapshot() {
    let mut acct = account(5, vec![1, 2, 3]);
    let pubkey = key(4);
    let txn = Some(TransactionRef { id: 3 });
    let update = QueuedAccountUpdate::new(8, &pubkey, &acct, &txn, 21, 1_000);
    acct.data[0] = 99;
    acct.lamports = 0;
    assert_eq!(update.slot, 8);
    assert_eq!(update.pubkey, pubkey);
    assert_eq!(update.account.data, vec![1, 2, 3]);
    assert_eq!(update.account.lamports, 5);
    assert_eq!(update.account.owner, key(9));
    assert_eq!(update.account.rent_epoch, 7);
    assert_eq!(update.txn, txn);
    assert_eq!(update.write_version, 21);
    assert!(!update.is_startup);
    assert_eq!(update.enqueue_at, 1_000);
    assert_eq!(update.queue_latency(1_250), 250);
    assert_eq!(update.queue_latency(1_000), 0);
    assert_eq!(update.queue_latency(10), 0);
    let copy = acct.duplicate();
    assert_eq!(copy.data, vec![99, 2, 3]);
    let info = update.account_info();
    assert_eq!(info.data, &[1u8, 2, 3][..]);
    assert_eq!(info.write_version, 21);
    assert_eq!(info.txn, txn);
}

#[test]
fn queued_updates_are_drained_in_order_after_stop() {
    let plugins = vec![Recorder::new("a", true), Recorder::new("b", false)];
    let mut notifier = notifier(false, true, false);
    let pubkey = key(4);
    for i in 0..10u64 {
        let acct = account(i, vec![i as u8]);
        let outcome = notifier.notify_account_update(&plugins, i, &acct, &None, &pubkey, 100 + i, 50);
        assert!(matches!(outcome, AccountUpdateOutcome::Queued));
    }
    assert!(plugins.iter().all(|p| p.seen.borrow().is_empty()));
    let receiver = notifier.stop().unwrap();
    let mut drained = 0u64;
    loop {
        match worker_step(&plugins, receiver.recv(), 80) {
            WorkerStep::Delivered { latency_us, deliveries } => {
                assert_eq!(latency_us, 30);
                assert_eq!(deliveries.len(), 2);
                assert!(deliveries[0].result.is_err());
                assert!(deliveries[1].result.is_ok());
                drained += 1;
            }
            WorkerStep::Finished => break,
        }
    }
    assert_eq!(drained, 10);
    assert!(matches!(worker_step(&plugins, receiver.recv(), 80), WorkerStep::Finished));
    for plugin in plugins.iter() {
        let seen = plugin.seen.borrow();
        assert_eq!(seen.len(), 10);
        for (i, s) in seen.iter().enumerate() {
            assert_eq!(s.slot, i as u64);
            assert_eq!(s.lamports, i as u64);
            assert_eq!(s.write_version, 100 + i as u64);
            assert_eq!(s.data, vec![i as u8]);
            assert!(!s.is_startup);
        }
    }
}

#[test]
fn stop_twice_is_a_no_op() {
    let plugins = vec![Recorder::new("a", false)];
    let mut notifier = notifier(false, true, false);
    assert!(notifier.stop().is_some());
    assert!(notifier.stop().is_none());
    assert!(notifier.stop().is_none());
    let acct = account(1, vec![]);
    match notifier.notify_account_update(&plugins, 1, &acct, &None, &key(1), 1, 0) {
        AccountUpdateOutcome::Delivered { cause, deliveries } => {
            assert_eq!(cause, InlineCause::Disconnected);
            assert_eq!(deliveries.len(), 1);
        }
        AccountUpdateOutcome::Queued => panic!("a closed queue took an update"),
    }
    let mut inline: AccountsUpdateNotifierImpl<u8> =
        AccountsUpdateNotifierImpl::new(false, false, false, |_| 1);
    assert!(inline.stop().is_none());
    let mut dispatch = AsyncAccountsDispatch::new(|_| 7u8);
    assert!(!dispatch.stopped());
    assert_eq!(dispatch.stop(), Some(7));
    assert!(dispatch.stopped());
    assert_eq!(dispatch.stop(), None);
}

#[test]
fn overflow_is_delivered_inline_with_the_same_content() {
    let plugins = vec![Recorder::new("a", false), Recorder::new("b", true)];
    let mut notifier = notifier(false, true, false);
    let pubkey = key(4);
    let acct = account(6, vec![7, 8]);
    let txn = Some(TransactionRef { id: 77 });
    for _ in 0..ASYNC_ACCOUNTS_DISPATCH_CHANNEL_CAPACITY {
        let outcome = notifier.notify_account_update(&plugins, 2, &acct, &txn, &pubkey, 5, 0);
        assert!(matches!(outcome, AccountUpdateOutcome::Queued));
    }
    match notifier.notify_account_update(&plugins, 2, &acct, &txn, &pubkey, 5, 0) {
        AccountUpdateOutcome::Delivered { cause, deliveries } => {
            assert_eq!(cause, InlineCause::Overflow);
            assert_eq!(deliveries.len(), 2);
            assert_eq!(deliveries[1].result, Err("b is down".to_string()));
        }
        AccountUpdateOutcome::Queued => panic!("a full queue took an update"),
    }
    let inline: Vec<Seen> = plugins[0].seen.borrow().clone();
    assert_eq!(inline.len(), 1);
    assert_eq!(plugins[1].seen.borrow().len(), 1);
    let receiver = notifier.stop().unwrap();
    let message = receiver.try_recv().unwrap();
    dispatch_queued_update(&plugins, &message, 0);
    let seen = plugins[0].seen.borrow();
    assert_eq!(seen.len(), 2);
    assert_eq!(seen[1], inline[0]);
    assert_eq!(seen[1].txn, Some(77));
}

#[test]
fn lost_worker_is_delivered_inline() {
    let plugins = vec![Recorder::new("a", false)];
    let notifier: AccountsUpdateNotifierImpl<()> =
        AccountsUpdateNotifierImpl::new(false, true, false, |receiver| drop(receiver));
    let acct = account(6, vec![7, 8]);
    match notifier.notify_account_update(&plugins, 2, &acct, &None, &key(1), 5, 0) {
        AccountUpdateOutcome::Delivered { cause, deliveries } => {
            assert_eq!(cause, InlineCause::Disconnected);
            assert_eq!(deliveries.len(), 1);
            assert_eq!(deliveries[0].plugin, "a");
        }
        AccountUpdateOutcome::Queued => panic!("a queue without a worker took an update"),
    }
    assert_eq!(plugins[0].seen.borrow().len(), 1);
}

#[test]
fn refused_message_comes_back() {
    let mut dispatch = AsyncAccountsDispatch::new(|receiver| receiver);
    let acct = account(6, vec![7, 8]);
    let update = QueuedAccountUpdate::new(3, &key(1), &acct, &None, 5, 9);
    assert!(dispatch.try_send(DispatchMessage::Account(update)).is_ok());
    let receiver = dispatch.stop().unwrap();
    let DispatchMessage::Account(got) = receiver.try_recv().unwrap();
    assert_eq!(got.slot, 3);
    assert_eq!(got.enqueue_at, 9);
    let update = QueuedAccountUpdate::new(4, &key(1), &acct, &None, 5, 9);
    match dispatch.try_send(DispatchMessage::Account(update)) {
        Err(TrySendError::Disconnected(DispatchMessage::Account(back))) => {
            assert_eq!(back.slot, 4);
            assert_eq!(back.account.data, vec![7, 8]);
        }
        other => panic!("unexpected answer: {:?}", other),
    }
    assert!(receiver.try_recv().is_err());
}

#[test]
fn settled_by_the_answer_of_the_queue() {
    let plugins = three_subscribers();
    let acct = account(6, vec![7, 8]);
    let pubkey = key(1);
    let envelope = || DispatchMessage::Account(QueuedAccountUpdate::new(3, &pubkey, &acct, &None, 5, 0));
    let queued = deliver_unless_queued(&plugins, Some(Ok(())), 3, &acct, &None, &pubkey, 5);
    assert!(matches!(queued, AccountUpdateOutcome::Queued));
    assert!(plugins.iter().all(|p| p.seen.borrow().is_empty()));
    let answers = vec![
        (None, InlineCause::Synchronous),
        (Some(Err(TrySendError::Full(envelope()))), InlineCause::Overflow),
        (Some(Err(TrySendError::Disconnected(envelope()))), InlineCause::Disconnected),
    ];
    let mut calls = 0;
    for (offered, expected) in answers {
        calls += 1;
        match deliver_unless_queued(&plugins, offered, 3, &acct, &None, &pubkey, 5) {
            AccountUpdateOutcome::Delivered { cause, deliveries } => {
                assert_eq!(cause, expected);
                assert_eq!(deliveries.len(), 3);
                assert!(deliveries[0].result.is_err());
                assert!(deliveries[1].result.is_ok());
            }
            AccountUpdateOutcome::Queued => panic!("nothing took the update"),
        }
        assert!(plugins.iter().all(|p| p.seen.borrow().len() == calls));
    }
}

//! The notifier: delivery of one event to every subscriber, each call isolated from
//! the failures of the others, inline or through the queue.

use vstd::prelude::*;
use crate::account::{
    accountinfo_from_account_for_geyser, accountinfo_from_shared_account_data, AccountForGeyser,
    AccountInfoModel, AccountModel, AccountSharedData, ReplicaAccountInfoV3, TransactionRef,
};
use crate::base58::{base58_text, encode_base58};
use crate::dispatch::{
    account_info_model, AsyncAccountsDispatch, DispatchMessage, QueuedAccountUpdate, TrySendError,
};
use crate::key::AccountKey;
use crate::owners::{canonical_owner_set, strictly_sorted};
use crate::plugin::{
    AccountDelivery, AccountSubscriber, Delivery, ReplicaTransactionAccountsInfo, Signature,
};
use solana_measure::measure::Measure;

verus! {

/// `deliveries` records one call of `update_account` on every subscriber, in the order
/// of the set and with exactly these arguments, whatever each of them answered.
pub open spec fn account_update_recorded<P: AccountSubscriber>(
    plugins: Seq<P>,
    account: &ReplicaAccountInfoV3<'_>,
    slot: u64,
    is_startup: bool,
    deliveries: Seq<AccountDelivery>,
) -> bool {
    &&& deliveries.len() == plugins.len()
    &&& forall|i: int|
        0 <= i < plugins.len() ==> {
            let d = #[trigger] deliveries[i];
            &&& call_ensures(P::name, (&plugins[i],), d.plugin)
            &&& call_ensures(P::update_account, (&plugins[i], account, slot, is_startup), d.result)
            &&& d.account@ == base58_text(account.pubkey@)
            &&& d.slot == slot
        }
}

/// `deliveries` records one call of `update_account` on every subscriber, in the order
/// of the set, each with one and the same projection that shows `shown`.
pub open spec fn account_shown_to_all<P: AccountSubscriber>(
    plugins: Seq<P>,
    shown: AccountInfoModel,
    slot: u64,
    is_startup: bool,
    deliveries: Seq<AccountDelivery>,
) -> bool {
    exists|info: ReplicaAccountInfoV3|
        info@ == shown && #[trigger] account_update_recorded(
            plugins,
            &info,
            slot,
            is_startup,
            deliveries,
        )
}

/// With no subscriber, no delivery is recorded, whatever the event.
pub proof fn lemma_no_subscriber_no_delivery<P: AccountSubscriber>(
    plugins: Seq<P>,
    shown: AccountInfoModel,
    slot: u64,
    is_startup: bool,
    deliveries: Seq<AccountDelivery>,
)
    requires
        plugins.len() == 0,
        account_shown_to_all(plugins, shown, slot, is_startup, deliveries),
    ensures
        deliveries.len() == 0,
{
}

/// An update that is delivered inline, because the queue did not take it, is shown to
/// every subscriber exactly as the worker would have shown the envelope of the same
/// update: the two deliveries leave the same records.
pub proof fn lemma_inline_delivery_matches_queued<P: AccountSubscriber>(
    plugins: Seq<P>,
    update: QueuedAccountUpdate,
    slot: u64,
    pubkey: AccountKey,
    account: AccountModel,
    txn: Option<TransactionRef>,
    write_version: u64,
    deliveries: Seq<AccountDelivery>,
)
    requires
        update.slot == slot,
        update.pubkey == pubkey,
        update.account@ == account,
        update.txn == txn,
        update.write_version == write_version,
        !update.is_startup,
    ensures
        account_shown_to_all(
            plugins,
            update.info_model(),
            update.slot,
            update.is_startup,
            deliveries,
        ) <==> account_shown_to_all(
            plugins,
            account_info_model(pubkey, account, write_version, txn),
            slot,
            false,
            deliveries,
        ),
{
}

/// `deliveries` records one call of `notify_end_of_startup` on every subscriber, in the
/// order of the set.
pub open spec fn end_of_startup_recorded<P: AccountSubscriber>(
    plugins: Seq<P>,
    deliveries: Seq<Delivery>,
) -> bool {
    &&& deliveries.len() == plugins.len()
    &&& forall|i: int|
        0 <= i < plugins.len() ==> {
            let d = #[trigger] deliveries[i];
            &&& call_ensures(P::name, (&plugins[i],), d.plugin)
            &&& call_ensures(P::notify_end_of_startup, (&plugins[i],), d.result)
        }
}

/// The write version of the `i`-th account of a batch that starts at `start`: one more
/// for each place, and never past the largest version.
pub open spec fn batch_write_version(start: u64, i: int) -> u64 {
    if start + i > u64::MAX {
        u64::MAX
    } else {
        (start + i) as u64
    }
}

/// `infos` projects the accounts of one transaction in their order: the `i`-th with
/// the write version `batch_write_version(start, i)`, and none with a transaction.
pub open spec fn batch_projected(
    accounts: Seq<(&AccountKey, &AccountSharedData)>,
    start: u64,
    infos: Seq<ReplicaAccountInfoV3<'_>>,
) -> bool {
    &&& infos.len() == accounts.len()
    &&& forall|i: int|
        0 <= i < accounts.len() ==> (#[trigger] infos[i])@ == account_info_model(
            *accounts[i].0,
            accounts[i].1@,
            batch_write_version(start, i),
            None,
        )
}

/// `deliveries` holds one entry for every subscriber, in the order of the set: nothing
/// for one that does not want grouped notifications, and for every other the record of
/// one call of `notify_transaction_accounts` with `info`.
pub open spec fn transaction_accounts_recorded<P: AccountSubscriber>(
    plugins: Seq<P>,
    info: &ReplicaTransactionAccountsInfo<'_>,
    deliveries: Seq<Option<Delivery>>,
) -> bool {
    &&& deliveries.len() == plugins.len()
    &&& forall|i: int|
        0 <= i < plugins.len() ==> match #[trigger] deliveries[i] {
            None => call_ensures(
                P::transaction_accounts_notifications_enabled,
                (&plugins[i],),
                false,
            ),
            Some(d) => {
                &&& call_ensures(P::transaction_accounts_notifications_enabled, (&plugins[i],), true)
                &&& call_ensures(P::name, (&plugins[i],), d.plugin)
                &&& call_ensures(P::notify_transaction_accounts, (&plugins[i], info), d.result)
            },
        }
}

/// `deliveries` records the grouped notification of one transaction: every subscriber
/// that wants it was shown, once, one and the same projection of the transaction at
/// `slot` with `signature` and `index`, whose accounts are those of `accounts` in
/// their order, with write versions counting up from `start`.
pub open spec fn transaction_shown_to_all<P: AccountSubscriber>(
    plugins: Seq<P>,
    slot: u64,
    signature: Signature,
    index: usize,
    accounts: Seq<(&AccountKey, &AccountSharedData)>,
    start: u64,
    deliveries: Seq<Option<Delivery>>,
) -> bool {
    exists|info: ReplicaTransactionAccountsInfo|
        {
            &&& info.slot == slot
            &&& *info.signature == signature
            &&& info.index == index
            &&& batch_projected(accounts, start, info.accounts@)
            &&& #[trigger] transaction_accounts_recorded(plugins, &info, deliveries)
        }
}

/// Each of the first `n` subscribers, asked once, said that it does not want grouped
/// notifications.
pub open spec fn none_willing<P: AccountSubscriber>(plugins: Seq<P>, n: int) -> bool {
    forall|j: int|
        0 <= j < n && j < plugins.len() ==> call_ensures(
            P::transaction_accounts_notifications_enabled,
            (&#[trigger] plugins[j],),
            false,
        )
}

/// The subscriber at `i` said that it wants grouped notifications, and each one before
/// it said that it does not.
pub open spec fn first_willing<P: AccountSubscriber>(plugins: Seq<P>, i: int) -> bool {
    &&& 0 <= i < plugins.len()
    &&& call_ensures(P::transaction_accounts_notifications_enabled, (&plugins[i],), true)
    &&& none_willing(plugins, i)
}

/// Some set in `declared` holds `k`.
pub open spec fn declared_in(declared: Seq<Vec<AccountKey>>, k: AccountKey) -> bool {
    exists|i: int| 0 <= i < declared.len() && (#[trigger] declared[i])@.contains(k)
}

/// `declared` holds, for every subscriber in the order of the set, what one call of
/// `transaction_accounts_include_readonly_owners` on it returned.
pub open spec fn owners_declared<P: AccountSubscriber>(
    plugins: Seq<P>,
    declared: Seq<Vec<AccountKey>>,
) -> bool {
    &&& declared.len() == plugins.len()
    &&& forall|i: int|
        0 <= i < plugins.len() ==> call_ensures(
            P::transaction_accounts_include_readonly_owners,
            (&plugins[i],),
            #[trigger] declared[i],
        )
}

/// `owners` holds exactly the owners that the subscribers declared, each asked once.
pub open spec fn readonly_owners_aggregated<P: AccountSubscriber>(
    plugins: Seq<P>,
    owners: Seq<AccountKey>,
) -> bool {
    exists|declared: Seq<Vec<AccountKey>>|
        {
            &&& #[trigger] owners_declared(plugins, declared)
            &&& forall|k: AccountKey| owners.contains(k) <==> declared_in(declared, k)
        }
}

/// Hands one account update to every subscriber, in the order of the set, and records
/// each answer. A failure is recorded and the next subscriber is called all the same.
/// With no subscriber nothing is called and nothing is recorded.
pub fn notify_plugins_of_account_update_inner<P: AccountSubscriber>(
    plugins: &Vec<P>,
    account: &ReplicaAccountInfoV3<'_>,
    slot: u64,
    is_startup: bool,
) -> (deliveries: Vec<AccountDelivery>)
    ensures
        account_update_recorded(plugins@, account, slot, is_startup, deliveries@),
        plugins@.len() == 0 ==> deliveries@.len() == 0,
{
    let mut deliveries: Vec<AccountDelivery> = Vec::new();
    let mut i: usize = 0;
    while i < plugins.len()
        invariant
            0 <= i <= plugins@.len(),
            account_update_recorded(plugins@.take(i as int), account, slot, is_startup, deliveries@),
        decreases plugins@.len() - i,
    {
        let plugin = &plugins[i];
        let mut measure = Measure::start("geyser-plugin-update-account");
        let result = plugin.update_account(account, slot, is_startup);
        let name = plugin.name();
        let text = encode_base58(account.pubkey);
        measure.stop();
        deliveries.push(
            AccountDelivery {
                plugin: name,
                account: text,
                slot,
                result,
                elapsed_us: measure.as_us(),
            },
        );
        i += 1;
    }
    assert(plugins@.take(i as int) =~= plugins@);
    deliveries
}

/// Hands one queued envelope to every subscriber, as the worker does with each message
/// it receives: the projection of the envelope's own snapshot, with its slot and its
/// replay flag. Returns how long the envelope was queued, given the time `now` on the
/// clock that stamped it, and the record of the calls.
pub fn dispatch_queued_update<P: AccountSubscriber>(
    plugins: &Vec<P>,
    message: &DispatchMessage,
    now: u64,
) -> (done: (u64, Vec<AccountDelivery>))
    ensures
        match *message {
            DispatchMessage::Account(update) => {
                &&& done.0 == if now >= update.enqueue_at {
                    now - update.enqueue_at
                } else {
                    0
                }
                &&& account_shown_to_all(
                    plugins@,
                    update.info_model(),
                    update.slot,
                    update.is_startup,
                    done.1@,
                )
            },
        },
{
    match message {
        DispatchMessage::Account(update) => {
            let latency = update.queue_latency(now);
            let info = update.account_info();
            let deliveries = notify_plugins_of_account_update_inner(
                plugins,
                &info,
                update.slot,
                update.is_startup,
            );
            assert(account_update_recorded(
                plugins@,
                &info,
                update.slot,
                update.is_startup,
                deliveries@,
            ));
            (latency, deliveries)
        },
    }
}

/// What the worker does after one wait on the queue.
#[derive(Debug)]
pub enum WorkerStep {
    /// It delivered the envelope it received, and waits again.
    Delivered { latency_us: u64, deliveries: Vec<AccountDelivery> },
    /// The queue is closed and drained: the worker ends.
    Finished,
}

/// One turn of the worker, given what its wait on the queue returned. An envelope is
/// delivered to every subscriber; the worker ends only on the error, which the queue
/// gives once it is closed and empty, and never because the queue is empty for now.
pub fn worker_step<P: AccountSubscriber>(
    plugins: &Vec<P>,
    received: Result<DispatchMessage, crossbeam_channel::RecvError>,
    now: u64,
) -> (step: WorkerStep)
    ensures
        match received {
            Ok(DispatchMessage::Account(update)) => match step {
                WorkerStep::Delivered { latency_us, deliveries } => {
                    &&& latency_us == if now >= update.enqueue_at {
                        now - update.enqueue_at
                    } else {
                        0
                    }
                    &&& account_shown_to_all(
                        plugins@,
                        update.info_model(),
                        update.slot,
                        update.is_startup,
                        deliveries@,
                    )
                },
                WorkerStep::Finished => false,
            },
            Err(_) => step is Finished,
        },
{
    match received {
        Ok(message) => {
            let (latency_us, deliveries) = dispatch_queued_update(plugins, &message, now);
            WorkerStep::Delivered { latency_us, deliveries }
        },
        Err(_) => WorkerStep::Finished,
    }
}

/// The projections of the accounts of one transaction, in their order. The `i`-th
/// carries the write version `write_version_start + i`, held at the largest version
/// where the sum would pass it.
pub fn transaction_account_infos<'a>(
    accounts: &'a [(&'a AccountKey, &'a AccountSharedData)],
    write_version_start: u64,
) -> (infos: Vec<ReplicaAccountInfoV3<'a>>)
    ensures
        batch_projected(accounts@, write_version_start, infos@),
{
    let mut infos: Vec<ReplicaAccountInfoV3<'a>> = Vec::new();
    let mut i: usize = 0;
    while i < accounts.len()
        invariant
            0 <= i <= accounts@.len(),
            batch_projected(accounts@.take(i as int), write_version_start, infos@),
        decreases accounts@.len() - i,
    {
        let (pubkey, account) = accounts[i];
        let mut info = accountinfo_from_shared_account_data(account, &None, pubkey, 0);
        info.write_version = write_version_start.saturating_add(i as u64);
        infos.push(info);
        i += 1;
    }
    assert(accounts@.take(i as int) =~= accounts@);
    infos
}

/// Why an update was delivered inline.
#[derive(Clone, Copy, Debug, PartialEq, Eq, Structural)]
pub enum InlineCause {
    /// The notifier has no queue: every update is delivered inline.
    Synchronous,
    /// The queue was full.
    Overflow,
    /// The queue was closed, or its worker is gone.
    Disconnected,
}

/// What became of one account update.
#[derive(Debug)]
pub enum AccountUpdateOutcome {
    /// The queue accepted it: the worker will deliver it.
    Queued,
    /// It was delivered inline, before the call returned.
    Delivered { cause: InlineCause, deliveries: Vec<AccountDelivery> },
}

/// Why an update is delivered inline, given what the queue answered when the update
/// was offered to it; `None` where there is no queue. Not asked where the queue took
/// the update.
pub open spec fn inline_cause(offered: Option<Result<(), TrySendError>>) -> InlineCause {
    match offered {
        None => InlineCause::Synchronous,
        Some(Err(TrySendError::Full(_))) => InlineCause::Overflow,
        _ => InlineCause::Disconnected,
    }
}

/// Settles one live account update after it was offered to the queue: `offered` is
/// the queue's answer, or `None` where there is no queue. An update that the queue
/// took is left to the worker. Every other is delivered inline to every subscriber,
/// from the live account, and the reason is reported with the records.
pub fn deliver_unless_queued<P: AccountSubscriber>(
    plugins: &Vec<P>,
    offered: Option<Result<(), TrySendError>>,
    slot: u64,
    account: &AccountSharedData,
    txn: &Option<TransactionRef>,
    pubkey: &AccountKey,
    write_version: u64,
) -> (outcome: AccountUpdateOutcome)
    ensures
        outcome is Queued <==> (offered is Some && offered->0 is Ok),
        match outcome {
            AccountUpdateOutcome::Queued => true,
            AccountUpdateOutcome::Delivered { cause, deliveries } => {
                &&& cause == inline_cause(offered)
                &&& account_shown_to_all(
                    plugins@,
                    account_info_model(*pubkey, account@, write_version, *txn),
                    slot,
                    false,
                    deliveries@,
                )
            },
        },
{
    let cause = match offered {
        Some(Ok(())) => {
            return AccountUpdateOutcome::Queued;
        },
        Some(Err(TrySendError::Full(_))) => InlineCause::Overflow,
        Some(Err(TrySendError::Disconnected(_))) => InlineCause::Disconnected,
        None => InlineCause::Synchronous,
    };
    let account_info = accountinfo_from_shared_account_data(account, txn, pubkey, write_version);
    let deliveries = notify_plugins_of_account_update_inner(plugins, &account_info, slot, false);
    assert(account_update_recorded(plugins@, &account_info, slot, false, deliveries@));
    AccountUpdateOutcome::Delivered { cause, deliveries }
}

/// The notifier. Its mode of delivery is chosen when it is made and never changes.
pub struct AccountsUpdateNotifierImpl<H> {
    snapshot_notifications_enabled: bool,
    async_dispatch: Option<AsyncAccountsDispatch<H>>,
    enable_transaction_accounts_notify: bool,
}

impl<H> AccountsUpdateNotifierImpl<H> {
    /// Whether updates go through the queue.
    pub closed spec fn is_async(&self) -> bool {
        self.async_dispatch is Some
    }

    /// Whether the queue is there and has been closed.
    pub closed spec fn is_stopped(&self) -> bool {
        self.async_dispatch is Some && self.async_dispatch->0.is_stopped()
    }

    /// The handle of the worker, where there is a queue and the handle has not been
    /// handed out yet.
    pub closed spec fn worker(&self) -> Option<H> {
        if self.async_dispatch is Some {
            self.async_dispatch->0.worker()
        } else {
            None
        }
    }

    /// There is a worker to wait for exactly while there is a queue that has not been
    /// stopped.
    pub proof fn lemma_worker_while_active(&self)
        ensures
            self.worker() is Some <==> self.is_async() && !self.is_stopped(),
    {
        if self.async_dispatch is Some {
            self.async_dispatch->0.lemma_worker_while_active();
        }
    }

    /// Whether stored accounts are replayed to the subscribers at startup.
    pub closed spec fn snapshot_enabled(&self) -> bool {
        self.snapshot_notifications_enabled
    }

    /// Whether grouped notifications per transaction are switched on.
    pub closed spec fn transaction_accounts_enabled(&self) -> bool {
        self.enable_transaction_accounts_notify
    }

    /// A notifier. With `accounts_notify_async` it gets a queue, and `spawn` starts the
    /// worker on the queue's receiving end; without, `spawn` is not called and every
    /// update is delivered inline.
    pub fn new<F: FnOnce(crossbeam_channel::Receiver<DispatchMessage>) -> H>(
        snapshot_notifications_enabled: bool,
        accounts_notify_async: bool,
        enable_transaction_accounts_notify: bool,
        spawn: F,
    ) -> (notifier: AccountsUpdateNotifierImpl<H>)
        requires
            forall|receiver: crossbeam_channel::Receiver<DispatchMessage>| #[trigger]
                spawn.requires((receiver,)),
        ensures
            notifier.snapshot_enabled() == snapshot_notifications_enabled,
            notifier.transaction_accounts_enabled() == enable_transaction_accounts_notify,
            notifier.is_async() == accounts_notify_async,
            !notifier.is_stopped(),
            notifier.worker() is Some == accounts_notify_async,
            accounts_notify_async ==> exists|receiver: crossbeam_channel::Receiver<DispatchMessage>| #[trigger]
                spawn.ensures((receiver,), notifier.worker()->0),
    {
        let async_dispatch = if accounts_notify_async {
            Some(AsyncAccountsDispatch::new(spawn))
        } else {
            None
        };
        let notifier = AccountsUpdateNotifierImpl {
            snapshot_notifications_enabled,
            async_dispatch,
            enable_transaction_accounts_notify,
        };
        proof {
            if accounts_notify_async {
                let receiver = choose|receiver: crossbeam_channel::Receiver<DispatchMessage>| #[trigger]
                    spawn.ensures((receiver,), async_dispatch->0.worker()->0);
                assert(spawn.ensures((receiver,), notifier.worker()->0));
            }
        }
        notifier
    }

    /// Whether stored accounts are replayed to the subscribers at startup.
    pub fn snapshot_notifications_enabled(&self) -> (enabled: bool)
        ensures
            enabled == self.snapshot_enabled(),
    {
        self.snapshot_notifications_enabled
    }

    /// Hands one projected account to every subscriber, inline.
    pub fn notify_plugins_of_account_update<P: AccountSubscriber>(
        &self,
        plugins: &Vec<P>,
        account: &ReplicaAccountInfoV3<'_>,
        slot: u64,
        is_startup: bool,
    ) -> (deliveries: Vec<AccountDelivery>)
        ensures
            account_update_recorded(plugins@, account, slot, is_startup, deliveries@),
            plugins@.len() == 0 ==> deliveries@.len() == 0,
    {
        notify_plugins_of_account_update_inner(plugins, account, slot, is_startup)
    }

    /// Takes one live account update. With a queue, the update is offered to it with a
    /// snapshot of its own, stamped `now`; if the queue takes it, the worker delivers
    /// it. Without a queue, or where the queue is full or closed, the update is
    /// delivered inline to every subscriber before the call returns.
    pub fn notify_account_update<P: AccountSubscriber>(
        &self,
        plugins: &Vec<P>,
        slot: u64,
        account: &AccountSharedData,
        txn: &Option<TransactionRef>,
        pubkey: &AccountKey,
        write_version: u64,
        now: u64,
    ) -> (outcome: AccountUpdateOutcome)
        ensures
            match outcome {
                AccountUpdateOutcome::Queued => self.is_async() && !self.is_stopped(),
                AccountUpdateOutcome::Delivered { cause, deliveries } => {
                    &&& cause == InlineCause::Synchronous <==> !self.is_async()
                    &&& cause == InlineCause::Overflow ==> !self.is_stopped()
                    &&& self.is_stopped() ==> cause == InlineCause::Disconnected
                    &&& account_shown_to_all(
                        plugins@,
                        account_info_model(*pubkey, account@, write_version, *txn),
                        slot,
                        false,
                        deliveries@,
                    )
                },
            },
            !self.is_async() || self.is_stopped() ==> outcome is Delivered,
    {
        let offered = match &self.async_dispatch {
            Some(async_dispatch) => {
                let message = DispatchMessage::Account(
                    QueuedAccountUpdate::new(slot, pubkey, account, txn, write_version, now),
                );
                Some(async_dispatch.try_send(message))
            },
            None => None,
        };
        deliver_unless_queued(plugins, offered, slot, account, txn, pubkey, write_version)
    }

    /// Replays one stored account to every subscriber, inline, under `write_version`
    /// and flagged as startup replay.
    pub fn notify_account_restore_from_snapshot<P: AccountSubscriber>(
        &self,
        plugins: &Vec<P>,
        slot: u64,
        write_version: u64,
        account: &AccountForGeyser<'_>,
    ) -> (deliveries: Vec<AccountDelivery>)
        ensures
            account_shown_to_all(
                plugins@,
                AccountInfoModel {
                    pubkey: account.pubkey@,
                    account: AccountModel {
                        lamports: account.lamports,
                        data: account.data@,
                        owner: account.owner@,
                        executable: account.executable,
                        rent_epoch: account.rent_epoch,
                    },
                    write_version,
                    txn: None,
                },
                slot,
                true,
                deliveries@,
            ),
    {
        let mut info = accountinfo_from_account_for_geyser(account);
        info.write_version = write_version;
        let deliveries = self.notify_plugins_of_account_update(plugins, &info, slot, true);
        assert(account_update_recorded(plugins@, &info, slot, true, deliveries@));
        deliveries
    }

    /// Tells every subscriber that the replay of stored accounts has ended, and
    /// records each answer. A failure does not keep the others from being told.
    pub fn notify_end_of_restore_from_snapshot<P: AccountSubscriber>(
        &self,
        plugins: &Vec<P>,
    ) -> (deliveries: Vec<Delivery>)
        ensures
            end_of_startup_recorded(plugins@, deliveries@),
            plugins@.len() == 0 ==> deliveries@.len() == 0,
    {
        let mut deliveries: Vec<Delivery> = Vec::new();
        let mut i: usize = 0;
        while i < plugins.len()
            invariant
                0 <= i <= plugins@.len(),
                end_of_startup_recorded(plugins@.take(i as int), deliveries@),
            decreases plugins@.len() - i,
        {
            let plugin = &plugins[i];
            let mut measure = Measure::start("geyser-plugin-end-of-restore-from-snapshot");
            let result = plugin.notify_end_of_startup();
            let name = plugin.name();
            measure.stop();
            deliveries.push(Delivery { plugin: name, result, elapsed_us: measure.as_us() });
            i += 1;
        }
        assert(plugins@.take(i as int) =~= plugins@);
        deliveries
    }

    /// Hands the accounts that one transaction wrote, projected together, to every
    /// subscriber that wants grouped notifications. Where these are switched off, or
    /// there is no subscriber, nothing is projected and nothing is recorded.
    pub fn notify_transaction_accounts<P: AccountSubscriber>(
        &self,
        plugins: &Vec<P>,
        slot: u64,
        signature: &Signature,
        transaction_index: usize,
        accounts: &[(&AccountKey, &AccountSharedData)],
        write_version_start: u64,
    ) -> (deliveries: Vec<Option<Delivery>>)
        ensures
            !self.transaction_accounts_enabled() ==> deliveries@.len() == 0,
            plugins@.len() == 0 ==> deliveries@.len() == 0,
            self.transaction_accounts_enabled() && plugins@.len() > 0 ==> transaction_shown_to_all(
                plugins@,
                slot,
                *signature,
                transaction_index,
                accounts@,
                write_version_start,
                deliveries@,
            ),
    {
        let mut deliveries: Vec<Option<Delivery>> = Vec::new();
        if !self.enable_transaction_accounts_notify {
            return deliveries;
        }
        if plugins.len() == 0 {
            return deliveries;
        }
        let account_infos = transaction_account_infos(accounts, write_version_start);
        let transaction_accounts_info = ReplicaTransactionAccountsInfo {
            signature,
            slot,
            index: transaction_index,
            accounts: account_infos.as_slice(),
        };
        let mut i: usize = 0;
        while i < plugins.len()
            invariant
                0 <= i <= plugins@.len(),
                transaction_accounts_recorded(
                    plugins@.take(i as int),
                    &transaction_accounts_info,
                    deliveries@,
                ),
            decreases plugins@.len() - i,
        {
            let plugin = &plugins[i];
            if !plugin.transaction_accounts_notifications_enabled() {
                deliveries.push(None);
            } else {
                let mut measure = Measure::start("geyser-plugin-notify-transaction-accounts");
                let result = plugin.notify_transaction_accounts(&transaction_accounts_info);
                let name = plugin.name();
                measure.stop();
                deliveries.push(
                    Some(Delivery { plugin: name, result, elapsed_us: measure.as_us() }),
                );
            }
            i += 1;
        }
        assert(plugins@.take(i as int) =~= plugins@);
        assert(transaction_accounts_recorded(plugins@, &transaction_accounts_info, deliveries@));
        deliveries
    }

    /// Whether grouped notifications are switched on and at least one subscriber says
    /// that it wants them. The subscribers are asked in the order of the set, up to
    /// the first that does.
    pub fn transaction_accounts_notifications_enabled<P: AccountSubscriber>(
        &self,
        plugins: &Vec<P>,
    ) -> (enabled: bool)
        ensures
            !self.transaction_accounts_enabled() ==> !enabled,
            enabled ==> exists|i: int| #[trigger] first_willing(plugins@, i),
            !enabled && self.transaction_accounts_enabled() ==> none_willing(
                plugins@,
                plugins@.len() as int,
            ),
    {
        if !self.enable_transaction_accounts_notify {
            return false;
        }
        let mut i: usize = 0;
        while i < plugins.len()
            invariant
                0 <= i <= plugins@.len(),
                self.transaction_accounts_enabled(),
                none_willing(plugins@, i as int),
            decreases plugins@.len() - i,
        {
            if plugins[i].transaction_accounts_notifications_enabled() {
                assert(first_willing(plugins@, i as int));
                return true;
            }
            i += 1;
        }
        false
    }

    /// The owners whose read-only accounts some subscriber wants included: what all
    /// subscribers declare, put together, sorted by key, each owner once. Empty where
    /// grouped notifications are switched off.
    pub fn transaction_accounts_include_readonly_owners<P: AccountSubscriber>(
        &self,
        plugins: &Vec<P>,
    ) -> (owners: Vec<AccountKey>)
        ensures
            strictly_sorted(owners@),
            !self.transaction_accounts_enabled() ==> owners@.len() == 0,
            self.transaction_accounts_enabled() ==> readonly_owners_aggregated(plugins@, owners@),
    {
        if !self.enable_transaction_accounts_notify {
            return Vec::new();
        }
        let mut all: Vec<AccountKey> = Vec::new();
        let ghost mut declared: Seq<Vec<AccountKey>> = Seq::empty();
        let mut i: usize = 0;
        while i < plugins.len()
            invariant
                0 <= i <= plugins@.len(),
                owners_declared(plugins@.take(i as int), declared),
                forall|k: AccountKey| all@.contains(k) <==> declared_in(declared, k),
            decreases plugins@.len() - i,
        {
            let set = plugins[i].transaction_accounts_include_readonly_owners();
            let ghost all_before = all@;
            let mut j: usize = 0;
            while j < set.len()
                invariant
                    0 <= j <= set@.len(),
                    forall|k: AccountKey|
                        all@.contains(k) <==> (all_before.contains(k) || set@.take(j as int).contains(
                            k,
                        )),
                decreases set@.len() - j,
            {
                let ghost all_old = all@;
                all.push(set[j]);
                proof {
                    let done = set@.take(j as int);
                    let next = set@.take(j + 1);
                    assert forall|k: AccountKey|
                        all@.contains(k) <==> (all_before.contains(k) || next.contains(k)) by {
                        assert(all_old.contains(k) <==> (all_before.contains(k) || done.contains(k)));
                        if all@.contains(k) {
                            let m = choose|m: int| 0 <= m < all@.len() && all@[m] == k;
                            if m < all_old.len() {
                                assert(all_old[m] == k);
                            } else {
                                assert(next[j as int] == k);
                            }
                        }
                        if done.contains(k) {
                            let m = choose|m: int| 0 <= m < done.len() && done[m] == k;
                            assert(next[m] == k);
                        }
                        if all_old.contains(k) {
                            let m = choose|m: int| 0 <= m < all_old.len() && all_old[m] == k;
                            assert(all@[m] == k);
                        }
                        if next.contains(k) {
                            let m = choose|m: int| 0 <= m < next.len() && next[m] == k;
                            if m < j {
                                assert(done[m] == k);
                            } else {
                                assert(all@[all_old.len() as int] == k);
                            }
                        }
                    }
                }
                j += 1;
            }
            proof {
                assert(set@.take(j as int) =~= set@);
                let earlier = declared;
                declared = declared.push(set);
                assert forall|k: AccountKey| all@.contains(k) <==> declared_in(declared, k) by {
                    assert(all_before.contains(k) <==> declared_in(earlier, k));
                    if declared_in(earlier, k) {
                        let m = choose|m: int|
                            0 <= m < earlier.len() && (#[trigger] earlier[m])@.contains(k);
                        assert(declared[m]@.contains(k));
                    }
                    if set@.contains(k) {
                        assert(declared[earlier.len() as int]@.contains(k));
                    }
                    if declared_in(declared, k) {
                        let m = choose|m: int|
                            0 <= m < declared.len() && (#[trigger] declared[m])@.contains(k);
                        if m < earlier.len() {
                            assert(earlier[m]@.contains(k));
                        }
                    }
                }
            }
            i += 1;
        }
        assert(plugins@.take(i as int) =~= plugins@);
        let owners = canonical_owner_set(&all);
        assert(owners_declared(plugins@, declared));
        owners
    }

    /// Stops the queue, if there is one: closes it, so that the worker ends once it has
    /// delivered what the queue had accepted, and only then hands out the worker's
    /// handle for the caller to wait on. A second call changes nothing and returns
    /// nothing, and so does a call on a notifier without a queue.
    pub fn stop(&mut self) -> (worker: Option<H>)
        ensures
            final(self).is_async() == old(self).is_async(),
            final(self).is_async() ==> final(self).is_stopped(),
            final(self).worker() is None,
            worker == old(self).worker(),
            final(self).snapshot_enabled() == old(self).snapshot_enabled(),
            final(self).transaction_accounts_enabled() == old(self).transaction_accounts_enabled(),
            !old(self).is_async() || old(self).is_stopped() ==> worker is None && *final(self)
                == *old(self),
    {
        match &mut self.async_dispatch {
            Some(async_dispatch) => async_dispatch.stop(),
            None => None,
        }
    }
}

} // verus!

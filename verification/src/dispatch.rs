//! The bounded queue between the producer and the background worker: the envelope
//! that is queued, the sending end, and the protocol that closes it.

use vstd::prelude::*;
use crate::account::{
    accountinfo_from_shared_account_data, AccountInfoModel, AccountModel, AccountSharedData,
    ReplicaAccountInfoV3, TransactionRef,
};
use crate::key::AccountKey;

verus! {

/// Number of envelopes that the queue holds before it refuses more.
pub const ASYNC_ACCOUNTS_DISPATCH_CHANNEL_CAPACITY: usize = 16_384;

/// The sending end of a `crossbeam_channel` channel.
#[verifier::external_type_specification]
#[verifier::external_body]
#[verifier::reject_recursive_types(T)]
pub struct ExSender<T>(crossbeam_channel::Sender<T>);

/// The receiving end of a `crossbeam_channel` channel.
#[verifier::external_type_specification]
#[verifier::external_body]
#[verifier::reject_recursive_types(T)]
pub struct ExReceiver<T>(crossbeam_channel::Receiver<T>);

/// The error of `Receiver::recv` in `crossbeam_channel`: the channel is empty and all
/// its sending ends are gone.
#[verifier::external_type_specification]
#[verifier::external_body]
pub struct ExRecvError(crossbeam_channel::RecvError);

/// One account update, owned by the queue from the moment it is accepted.
#[derive(Debug)]
pub struct QueuedAccountUpdate {
    pub slot: u64,
    pub pubkey: AccountKey,
    pub account: AccountSharedData,
    pub txn: Option<TransactionRef>,
    pub write_version: u64,
    pub is_startup: bool,
    /// When the update was queued, in microseconds of the caller's clock.
    pub enqueue_at: u64,
}

/// What travels through the queue.
#[derive(Debug)]
pub enum DispatchMessage {
    Account(QueuedAccountUpdate),
}

/// Why the queue did not take a message. Either way the message comes back.
#[derive(Debug)]
pub enum TrySendError {
    /// The queue holds as many messages as it can.
    Full(DispatchMessage),
    /// The queue is closed, or nobody receives from it any more.
    Disconnected(DispatchMessage),
}

/// What the projection of a live account shows.
pub open spec fn account_info_model(
    pubkey: AccountKey,
    account: AccountModel,
    write_version: u64,
    txn: Option<TransactionRef>,
) -> AccountInfoModel {
    AccountInfoModel { pubkey: pubkey@, account, write_version, txn }
}

impl QueuedAccountUpdate {
    /// What the worker will show the subscribers for this envelope.
    pub open spec fn info_model(&self) -> AccountInfoModel {
        account_info_model(self.pubkey, self.account@, self.write_version, self.txn)
    }

    /// The envelope of a live update (never a replay), with a snapshot of its own.
    pub fn new(
        slot: u64,
        pubkey: &AccountKey,
        account: &AccountSharedData,
        txn: &Option<TransactionRef>,
        write_version: u64,
        enqueue_at: u64,
    ) -> (update: QueuedAccountUpdate)
        ensures
            update.slot == slot,
            update.pubkey == *pubkey,
            update.account@ == account@,
            update.txn == *txn,
            update.write_version == write_version,
            !update.is_startup,
            update.enqueue_at == enqueue_at,
    {
        QueuedAccountUpdate {
            slot,
            pubkey: *pubkey,
            account: account.duplicate(),
            txn: *txn,
            write_version,
            is_startup: false,
            enqueue_at,
        }
    }

    /// The projection that the worker hands to the subscribers.
    pub fn account_info(&self) -> (info: ReplicaAccountInfoV3<'_>)
        ensures
            info@ == self.info_model(),
    {
        accountinfo_from_shared_account_data(
            &self.account,
            &self.txn,
            &self.pubkey,
            self.write_version,
        )
    }

    /// How long the envelope stayed in the queue, given the time now on the clock that
    /// stamped it; 0 where that clock went backwards.
    pub fn queue_latency(&self, now: u64) -> (latency: u64)
        ensures
            latency == if now >= self.enqueue_at {
                now - self.enqueue_at
            } else {
                0
            },
    {
        if now >= self.enqueue_at {
            now - self.enqueue_at
        } else {
            0
        }
    }
}

/// Calls `crossbeam_channel::bounded`: a channel that holds at most `capacity` messages.
/// Nothing is claimed of the two ends.
#[verifier::external_body]
fn bounded_channel(capacity: usize) -> (ends: (
    crossbeam_channel::Sender<DispatchMessage>,
    crossbeam_channel::Receiver<DispatchMessage>,
))
    requires
        0 < capacity <= ASYNC_ACCOUNTS_DISPATCH_CHANNEL_CAPACITY,
{
    crossbeam_channel::bounded(capacity)
}

/// Calls `Sender::try_send`, which never waits. Whether the channel takes the message
/// depends on what the receiving thread has done, so nothing is claimed of that; a
/// message that was refused comes back unchanged.
#[verifier::external_body]
fn channel_try_send(
    sender: &crossbeam_channel::Sender<DispatchMessage>,
    message: DispatchMessage,
) -> (sent: Result<(), TrySendError>)
    ensures
        match sent {
            Ok(_) => true,
            Err(TrySendError::Full(back)) => back == message,
            Err(TrySendError::Disconnected(back)) => back == message,
        },
{
    match sender.try_send(message) {
        Ok(()) => Ok(()),
        Err(crossbeam_channel::TrySendError::Full(back)) => Err(TrySendError::Full(back)),
        Err(crossbeam_channel::TrySendError::Disconnected(back)) => Err(
            TrySendError::Disconnected(back),
        ),
    }
}

/// The producer's side of the queue, and the handle of the worker that drains it. It
/// is active while it holds the sending end and stopped once that is gone; it never
/// becomes active again. `H` is whatever the caller needs to wait for the worker.
pub struct AsyncAccountsDispatch<H> {
    /// The sending end and the worker's handle while active; nothing once stopped.
    active: Option<(crossbeam_channel::Sender<DispatchMessage>, H)>,
}

impl<H> AsyncAccountsDispatch<H> {
    /// Whether the queue has been closed from the producer's side.
    pub closed spec fn is_stopped(&self) -> bool {
        self.active is None
    }

    /// The handle of the worker, until it is handed out to be waited for.
    pub closed spec fn worker(&self) -> Option<H> {
        match self.active {
            Some(ends) => Some(ends.1),
            None => None,
        }
    }

    /// The handle holds the sending end exactly as long as it holds the worker's
    /// handle: there is no worker to wait for on a stopped queue, and no active queue
    /// without a worker.
    pub proof fn lemma_worker_while_active(&self)
        ensures
            self.worker() is Some <==> !self.is_stopped(),
    {
    }

    /// A queue of [`ASYNC_ACCOUNTS_DISPATCH_CHANNEL_CAPACITY`] envelopes. `spawn`
    /// starts the worker on the receiving end and returns its handle.
    pub fn new<F: FnOnce(crossbeam_channel::Receiver<DispatchMessage>) -> H>(spawn: F) -> (dispatch:
        AsyncAccountsDispatch<H>)
        requires
            forall|receiver: crossbeam_channel::Receiver<DispatchMessage>| #[trigger]
                spawn.requires((receiver,)),
        ensures
            !dispatch.is_stopped(),
            dispatch.worker() is Some,
            exists|receiver: crossbeam_channel::Receiver<DispatchMessage>| #[trigger]
                spawn.ensures((receiver,), dispatch.worker()->0),
    {
        let (sender, receiver) = bounded_channel(ASYNC_ACCOUNTS_DISPATCH_CHANNEL_CAPACITY);
        let ghost handed = receiver;
        let thread_hdl = spawn(receiver);
        let dispatch = AsyncAccountsDispatch { active: Some((sender, thread_hdl)) };
        assert(spawn.ensures((handed,), dispatch.worker()->0));
        dispatch
    }

    /// Whether the queue has been closed from the producer's side.
    pub fn stopped(&self) -> (stopped: bool)
        ensures
            stopped == self.is_stopped(),
    {
        self.active.is_none()
    }

    /// Offers a message to the queue without ever waiting. A stopped handle refuses it
    /// as disconnected; whatever is refused comes back unchanged.
    pub fn try_send(&self, message: DispatchMessage) -> (sent: Result<(), TrySendError>)
        ensures
            self.is_stopped() ==> sent == Err::<(), TrySendError>(
                TrySendError::Disconnected(message),
            ),
            match sent {
                Ok(_) => !self.is_stopped(),
                Err(TrySendError::Full(back)) => back == message && !self.is_stopped(),
                Err(TrySendError::Disconnected(back)) => back == message,
            },
    {
        match &self.active {
            Some(ends) => channel_try_send(&ends.0, message),
            None => Err(TrySendError::Disconnected(message)),
        }
    }

    /// Stops the queue in two steps, in this order: first the sending end is given up,
    /// so that the worker drains what was accepted and then ends; then the worker's
    /// handle is taken and returned, for the caller to wait on. A second call finds
    /// neither, changes nothing and returns nothing.
    pub fn stop(&mut self) -> (worker: Option<H>)
        ensures
            final(self).is_stopped(),
            final(self).worker() is None,
            worker == old(self).worker(),
            old(self).is_stopped() ==> worker is None && *final(self) == *old(self),
    {
        match self.active.take() {
            Some(ends) => {
                // The sending end is dropped at the end of this arm, which closes the
                // queue before the caller gets the handle to wait on.
                let (sender, thread_hdl) = ends;
                Some(thread_hdl)
            },
            None => None,
        }
    }
}

} // verus!

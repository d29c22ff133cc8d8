//! The state of one subscribed wallet, and the rules by which it changes.
//!
//! A wallet has an identity that never changes (workchain, address, public
//! key, contract kind) and a cached view of the account: the last contract
//! state, the custodians of a multisig, the messages in flight and the
//! multisig proposals that wait for confirmations. The view changes only
//! by [`Wallet::refresh`], [`Wallet::handle_block`] and
//! [`Wallet::record_sent`]; each says what it tells the wallet's listener.

use vstd::prelude::*;

use crate::error::{ErrorKind, NativeError, WalletFailure, INVALID_SUBSCRIPTION};
use crate::filtering::{lemma_filter_all_or_shorter, lemma_filter_step, lemma_filter_subset};
use crate::keys::{custodian_texts, custodians_to_hex, keys_view, texts_view, PublicKey};
use crate::model::{
    BlockRecord, BlockRecordView, ContractState, UInt256, PendingTransaction, PollingMethod,
    TonWalletDetails, UnconfirmedTransaction, WalletType,
};

verus! {

/// Where the notifications of a wallet go: the port of the listener that
/// was named at subscription, or nowhere.
#[derive(Clone, Copy, Debug, PartialEq, Eq, Structural)]
pub struct Listener {
    pub port: Option<i64>,
}

/// What a wallet tells its listener.
#[derive(Clone, Copy, Debug, PartialEq, Eq)]
pub enum Notification {
    /// The contract state, the messages in flight or the waiting proposals
    /// changed; the contract state is now this.
    StateChanged(ContractState),
    /// This message expired before the chain executed it, and is no longer
    /// in flight.
    MessageExpired(PendingTransaction),
}

/// One notification on its way to a port. Sending it is never waited for,
/// and a port that is gone is no failure.
#[derive(Clone, Copy, Debug, PartialEq, Eq)]
pub struct Delivery {
    pub port: i64,
    pub notification: Notification,
}

/// The deliveries that a run of notifications makes: one each, in order,
/// to the listener's port, and none without a listener.
pub open spec fn deliveries(listener: Listener, notes: Seq<Notification>) -> Seq<Delivery> {
    match listener.port {
        Some(port) => Seq::new(notes.len(), |i: int| Delivery { port, notification: notes[i] }),
        None => Seq::empty(),
    }
}

impl Listener {
    /// Addresses a run of notifications to this listener.
    pub fn address(&self, notes: &Vec<Notification>) -> (sent: Vec<Delivery>)
        ensures
            sent@ == deliveries(*self, notes@),
    {
        let mut sent: Vec<Delivery> = Vec::new();
        match self.port {
            None => {},
            Some(port) => {
                let mut i: usize = 0;
                while i < notes.len()
                    invariant
                        i <= notes.len(),
                        sent.len() == i,
                        forall|k: int|
                            0 <= k < i ==> #[trigger] sent@[k] == (Delivery {
                                port,
                                notification: notes@[k],
                            }),
                    decreases notes.len() - i,
                {
                    sent.push(Delivery { port, notification: notes[i] });
                    i += 1;
                }
            },
        }
        assert(sent@ =~= deliveries(*self, notes@));
        sent
    }
}

/// Whether no two entries have the same message hash.
pub open spec fn distinct_hashes(pending: Seq<PendingTransaction>) -> bool {
    forall|i: int, j: int|
        0 <= i < j < pending.len() ==> (#[trigger] pending[i]).message_hash != (
        #[trigger] pending[j]).message_hash
}

/// Whether no two proposals have the same number.
pub open spec fn distinct_ids(unconfirmed: Seq<UnconfirmedTransaction>) -> bool {
    forall|i: int, j: int|
        0 <= i < j < unconfirmed.len() ==> (#[trigger] unconfirmed[i]).id != (
        #[trigger] unconfirmed[j]).id
}

/// The entries whose message hash is not `hash`.
pub open spec fn other_than(hash: UInt256) -> spec_fn(PendingTransaction) -> bool {
    |p: PendingTransaction| p.message_hash != hash
}

/// The entries that a block leaves in flight: the chain has not executed
/// them, and they expire after the block's time.
pub open spec fn stays_pending(block: BlockRecordView) -> spec_fn(PendingTransaction) -> bool {
    |p: PendingTransaction| !block.confirms(p.message_hash) && p.expire_at > block.time
}

/// The entries that expire with a block: the chain has not executed them,
/// and the block's time has reached their expiration.
pub open spec fn expires_with(block: BlockRecordView) -> spec_fn(PendingTransaction) -> bool {
    |p: PendingTransaction| !block.confirms(p.message_hash) && p.expire_at <= block.time
}

/// The proposals that a block leaves waiting.
pub open spec fn stays_unconfirmed(block: BlockRecordView) -> spec_fn(
    UnconfirmedTransaction,
) -> bool {
    |u: UnconfirmedTransaction| !block.completes(u.id)
}

/// The notifications that tell of these expired messages, in their order.
pub open spec fn expiry_notes(expired: Seq<PendingTransaction>) -> Seq<Notification> {
    Seq::new(expired.len(), |i: int| Notification::MessageExpired(expired[i]))
}

/// What a subscription reports of the account it subscribed to.
#[derive(Debug)]
pub struct Subscribed {
    pub workchain: i8,
    pub address: String,
    pub public_key: PublicKey,
    pub wallet_type: WalletType,
    pub details: TonWalletDetails,
    pub contract_state: ContractState,
    pub custodians: Option<Vec<PublicKey>>,
    pub unconfirmed_transactions: Vec<UnconfirmedTransaction>,
}

/// The wallet as others see it in one piece: identity, contract state,
/// what its contract can do, and the custodians as texts.
#[derive(Debug)]
pub struct TonWalletInfo {
    pub workchain: i8,
    pub address: String,
    pub public_key: PublicKey,
    pub wallet_type: WalletType,
    pub contract_state: ContractState,
    pub details: TonWalletDetails,
    pub custodians: Option<Vec<String>>,
}

/// The mathematical value of a [`Wallet`].
pub struct WalletView {
    pub workchain: i8,
    pub address: Seq<char>,
    pub public_key: PublicKey,
    pub wallet_type: WalletType,
    pub details: TonWalletDetails,
    pub contract_state: ContractState,
    pub custodians: Option<Seq<PublicKey>>,
    pub pending: Seq<PendingTransaction>,
    pub unconfirmed: Seq<UnconfirmedTransaction>,
    pub listener: Listener,
}

impl WalletView {
    /// What holds of every wallet: only a multisig has custodians and
    /// waiting proposals, no two messages in flight have one hash, and no
    /// two waiting proposals have one number.
    pub open spec fn wf(self) -> bool {
        &&& self.custodians is Some ==> self.wallet_type.is_multisig()
        &&& self.unconfirmed.len() > 0 ==> self.wallet_type.is_multisig()
        &&& distinct_hashes(self.pending)
        &&& distinct_ids(self.unconfirmed)
    }

    /// Whether a message with this hash is in flight.
    pub open spec fn tracks(self, hash: UInt256) -> bool {
        exists|i: int| 0 <= i < self.pending.len() && (#[trigger] self.pending[i]).message_hash == hash
    }

    /// Whether a proposal with this number waits for confirmations.
    pub open spec fn awaits(self, id: u64) -> bool {
        exists|i: int| 0 <= i < self.unconfirmed.len() && (#[trigger] self.unconfirmed[i]).id == id
    }

    /// The polling hint: reliable while messages are in flight.
    pub open spec fn polling_method(self) -> PollingMethod {
        if self.pending.len() == 0 {
            PollingMethod::Manual
        } else {
            PollingMethod::Reliable
        }
    }

    /// The wallet after a refresh: the contract state is replaced as a
    /// whole, and nothing else changes.
    pub open spec fn after_refresh(self, contract_state: ContractState) -> WalletView {
        WalletView { contract_state, ..self }
    }

    /// The wallet after a submission: the submitted message is in flight,
    /// last of all, in place of any entry with the same hash.
    pub open spec fn after_send(self, sent: PendingTransaction) -> WalletView {
        WalletView { pending: self.pending.filter(other_than(sent.message_hash)).push(sent), ..self }
    }

    /// The messages that expire with a block, in the order they were
    /// submitted.
    pub open spec fn expired_by(self, block: BlockRecordView) -> Seq<PendingTransaction> {
        self.pending.filter(expires_with(block))
    }

    /// The wallet after a block: the contract state is the block's, where
    /// the block has one; the messages that the block executed or outlived
    /// are no longer in flight; the proposals that the block completed no
    /// longer wait. Identity, custodians and listener stay.
    pub open spec fn after_block(self, block: BlockRecordView) -> WalletView {
        WalletView {
            contract_state: match block.contract_state {
                Some(state) => state,
                None => self.contract_state,
            },
            pending: self.pending.filter(stays_pending(block)),
            unconfirmed: self.unconfirmed.filter(stays_unconfirmed(block)),
            ..self
        }
    }

    /// The notification of a change: one, with the new contract state, if
    /// `after` differs from this wallet, and none if it does not.
    pub open spec fn change_notes(self, after: WalletView) -> Seq<Notification> {
        if after != self {
            seq![Notification::StateChanged(after.contract_state)]
        } else {
            Seq::empty()
        }
    }

    /// The notifications of a block: each expired message, then the change.
    pub open spec fn block_notes(self, block: BlockRecordView) -> Seq<Notification> {
        expiry_notes(self.expired_by(block)) + self.change_notes(self.after_block(block))
    }
}

/// The wallet that a subscription begins with: what was reported, nothing
/// in flight, and the listener.
pub open spec fn initial_wallet(subscribed: Subscribed, listener: Listener) -> WalletView {
    WalletView {
        workchain: subscribed.workchain,
        address: subscribed.address@,
        public_key: subscribed.public_key,
        wallet_type: subscribed.wallet_type,
        details: subscribed.details,
        contract_state: subscribed.contract_state,
        custodians: match subscribed.custodians {
            Some(keys) => Some(keys@),
            None => None,
        },
        pending: Seq::empty(),
        unconfirmed: subscribed.unconfirmed_transactions@,
        listener,
    }
}

/// Filtering keeps message hashes distinct.
pub proof fn lemma_filter_keeps_distinct_hashes(
    s: Seq<PendingTransaction>,
    keep: spec_fn(PendingTransaction) -> bool,
)
    requires
        distinct_hashes(s),
    ensures
        distinct_hashes(s.filter(keep)),
    decreases s.len(),
{
    reveal(Seq::filter);
    if s.len() > 0 {
        let front = s.drop_last();
        assert forall|i: int, j: int| 0 <= i < j < front.len() implies (
        #[trigger] front[i]).message_hash != (#[trigger] front[j]).message_hash by {
            assert(front[i] == s[i] && front[j] == s[j]);
        }
        lemma_filter_keeps_distinct_hashes(front, keep);
        lemma_filter_subset(front, keep);
        let kept = s.filter(keep);
        assert forall|i: int, j: int| 0 <= i < j < kept.len() implies (
        #[trigger] kept[i]).message_hash != (#[trigger] kept[j]).message_hash by {
            if keep(s.last()) && j == kept.len() - 1 {
                let e = front.filter(keep)[i];
                assert(front.contains(e));
                let k = choose|k: int| 0 <= k < front.len() && front[k] == e;
                assert(s[k] == e);
                assert(s[k].message_hash != s[s.len() - 1].message_hash);
            } else {
                assert(kept[i] == front.filter(keep)[i]);
                assert(kept[j] == front.filter(keep)[j]);
            }
        }
    }
}

/// Filtering keeps proposal numbers distinct.
pub proof fn lemma_filter_keeps_distinct_ids(
    s: Seq<UnconfirmedTransaction>,
    keep: spec_fn(UnconfirmedTransaction) -> bool,
)
    requires
        distinct_ids(s),
    ensures
        distinct_ids(s.filter(keep)),
    decreases s.len(),
{
    reveal(Seq::filter);
    if s.len() > 0 {
        let front = s.drop_last();
        assert forall|i: int, j: int| 0 <= i < j < front.len() implies (#[trigger] front[i]).id != (
        #[trigger] front[j]).id by {
            assert(front[i] == s[i] && front[j] == s[j]);
        }
        lemma_filter_keeps_distinct_ids(front, keep);
        lemma_filter_subset(front, keep);
        let kept = s.filter(keep);
        assert forall|i: int, j: int| 0 <= i < j < kept.len() implies (#[trigger] kept[i]).id != (
        #[trigger] kept[j]).id by {
            if keep(s.last()) && j == kept.len() - 1 {
                let e = front.filter(keep)[i];
                assert(front.contains(e));
                let k = choose|k: int| 0 <= k < front.len() && front[k] == e;
                assert(s[k] == e);
                assert(s[k].id != s[s.len() - 1].id);
            } else {
                assert(kept[i] == front.filter(keep)[i]);
                assert(kept[j] == front.filter(keep)[j]);
            }
        }
    }
}

/// Every rule keeps a wallet well-formed.
pub proof fn lemma_rules_keep_wf(w: WalletView, state: ContractState, sent: PendingTransaction, block: BlockRecordView)
    requires
        w.wf(),
    ensures
        w.after_refresh(state).wf(),
        w.after_send(sent).wf(),
        w.after_block(block).wf(),
{
    lemma_filter_keeps_distinct_hashes(w.pending, other_than(sent.message_hash));
    lemma_filter_subset(w.pending, other_than(sent.message_hash));
    lemma_filter_keeps_distinct_hashes(w.pending, stays_pending(block));
    lemma_filter_keeps_distinct_ids(w.unconfirmed, stays_unconfirmed(block));
    w.unconfirmed.lemma_filter_len(stays_unconfirmed(block));
}

/// Whether no two proposals of a list have the same number.
pub fn has_distinct_ids(unconfirmed: &Vec<UnconfirmedTransaction>) -> (b: bool)
    ensures
        b == distinct_ids(unconfirmed@),
{
    let mut j: usize = 0;
    while j < unconfirmed.len()
        invariant
            j <= unconfirmed.len(),
            forall|a: int, b: int|
                0 <= a < b < j ==> (#[trigger] unconfirmed@[a]).id != (#[trigger] unconfirmed@[b]).id,
        decreases unconfirmed.len() - j,
    {
        let mut i: usize = 0;
        while i < j
            invariant
                i <= j < unconfirmed.len(),
                forall|a: int| 0 <= a < i ==> (#[trigger] unconfirmed@[a]).id != unconfirmed@[j as int].id,
            decreases j - i,
        {
            if unconfirmed[i].id == unconfirmed[j].id {
                return false;
            }
            i += 1;
        }
        j += 1;
    }
    true
}

/// The cached state of one subscribed wallet.
#[derive(Debug)]
pub struct Wallet {
    workchain: i8,
    address: String,
    public_key: PublicKey,
    wallet_type: WalletType,
    details: TonWalletDetails,
    contract_state: ContractState,
    custodians: Option<Vec<PublicKey>>,
    pending: Vec<PendingTransaction>,
    unconfirmed: Vec<UnconfirmedTransaction>,
    listener: Listener,
}

impl View for Wallet {
    type V = WalletView;

    closed spec fn view(&self) -> WalletView {
        WalletView {
            workchain: self.workchain,
            address: self.address@,
            public_key: self.public_key,
            wallet_type: self.wallet_type,
            details: self.details,
            contract_state: self.contract_state,
            custodians: match self.custodians {
                Some(keys) => Some(keys@),
                None => None,
            },
            pending: self.pending@,
            unconfirmed: self.unconfirmed@,
            listener: self.listener,
        }
    }
}

impl Wallet {
    #[verifier::type_invariant]
    spec fn well_formed(&self) -> bool {
        self@.wf()
    }

    /// Begins a session with what a subscription reported.
    ///
    /// The report is taken exactly if it makes a well-formed wallet: only
    /// a multisig may come with custodians or waiting proposals, and no
    /// two proposals may have one number. Nothing is in flight at first.
    pub fn subscribe(subscribed: Subscribed, listener: Listener) -> (r: Result<Wallet, NativeError>)
        ensures
            r is Ok <==> initial_wallet(subscribed, listener).wf(),
            r matches Ok(wallet) ==> wallet@ == initial_wallet(subscribed, listener),
            r matches Err(e) ==> e@.kind == ErrorKind::WalletProtocolError(WalletFailure::Plain)
                && e@.info == INVALID_SUBSCRIPTION@,
    {
        let multisig = subscribed.wallet_type.multisig();
        let coherent = (multisig || (subscribed.custodians.is_none()
            && subscribed.unconfirmed_transactions.len() == 0)) && has_distinct_ids(
            &subscribed.unconfirmed_transactions,
        );
        if !coherent {
            return Err(
                NativeError::new(
                    ErrorKind::WalletProtocolError(WalletFailure::Plain),
                    INVALID_SUBSCRIPTION,
                ),
            );
        }
        Ok(
            Wallet {
                workchain: subscribed.workchain,
                address: subscribed.address,
                public_key: subscribed.public_key,
                wallet_type: subscribed.wallet_type,
                details: subscribed.details,
                contract_state: subscribed.contract_state,
                custodians: subscribed.custodians,
                pending: Vec::new(),
                unconfirmed: subscribed.unconfirmed_transactions,
                listener,
            },
        )
    }

    /// The workchain of the account.
    pub fn workchain(&self) -> (workchain: i8)
        ensures
            workchain == self@.workchain,
    {
        self.workchain
    }

    /// The address of the account.
    pub fn address(&self) -> (address: &String)
        ensures
            address@ == self@.address,
    {
        &self.address
    }

    /// The public key of the owner.
    pub fn public_key(&self) -> (public_key: PublicKey)
        ensures
            public_key == self@.public_key,
    {
        self.public_key
    }

    /// The kind of the wallet contract.
    pub fn wallet_type(&self) -> (wallet_type: WalletType)
        ensures
            wallet_type == self@.wallet_type,
    {
        self.wallet_type
    }

    /// The cached contract state.
    pub fn contract_state(&self) -> (contract_state: ContractState)
        ensures
            contract_state == self@.contract_state,
    {
        self.contract_state
    }

    /// The messages in flight, in the order they were submitted. No two
    /// have one hash.
    pub fn pending_transactions(&self) -> (pending: &Vec<PendingTransaction>)
        ensures
            pending@ == self@.pending,
            distinct_hashes(pending@),
    {
        proof {
            use_type_invariant(self);
        }
        &self.pending
    }

    /// The polling hint: reliable while messages are in flight.
    pub fn polling_method(&self) -> (method: PollingMethod)
        ensures
            method == self@.polling_method(),
    {
        if self.pending.len() == 0 {
            PollingMethod::Manual
        } else {
            PollingMethod::Reliable
        }
    }

    /// What the wallet's contract can do.
    pub fn details(&self) -> (details: TonWalletDetails)
        ensures
            details == self@.details,
    {
        self.details
    }

    /// The proposals that wait for confirmations. No two have one number,
    /// and only a multisig has any.
    pub fn get_unconfirmed_transactions(&self) -> (unconfirmed: &Vec<UnconfirmedTransaction>)
        ensures
            unconfirmed@ == self@.unconfirmed,
            distinct_ids(unconfirmed@),
            unconfirmed@.len() > 0 ==> self@.wallet_type.is_multisig(),
    {
        proof {
            use_type_invariant(self);
        }
        &self.unconfirmed
    }

    /// The custodians, which only a multisig has.
    pub fn get_custodians(&self) -> (custodians: &Option<Vec<PublicKey>>)
        ensures
            match *custodians {
                Some(keys) => self@.custodians == Some(keys@),
                None => self@.custodians is None,
            },
            *custodians is Some ==> self@.wallet_type.is_multisig(),
    {
        proof {
            use_type_invariant(self);
        }
        &self.custodians
    }

    /// The listener that was named at subscription.
    pub fn listener(&self) -> (listener: Listener)
        ensures
            listener == self@.listener,
    {
        self.listener
    }

    /// Replaces the cached contract state as a whole by a fresh snapshot,
    /// and tells the listener if that changed the wallet.
    pub fn refresh(&mut self, contract_state: ContractState) -> (sent: Vec<Delivery>)
        ensures
            final(self)@ == old(self)@.after_refresh(contract_state),
            sent@ == deliveries(old(self)@.listener, old(self)@.change_notes(final(self)@)),
    {
        proof {
            use_type_invariant(&*self);
        }
        let mut notes: Vec<Notification> = Vec::new();
        if !self.contract_state.same_as(&contract_state) {
            notes.push(Notification::StateChanged(contract_state));
        }
        self.contract_state = contract_state;
        assert(notes@ =~= old(self)@.change_notes(self@));
        self.listener.address(&notes)
    }

    /// Takes a submitted message into the messages in flight, in place of
    /// any entry with the same hash, and tells the listener if that
    /// changed the wallet.
    pub fn record_sent(&mut self, submitted: PendingTransaction) -> (sent: Vec<Delivery>)
        ensures
            final(self)@ == old(self)@.after_send(submitted),
            sent@ == deliveries(old(self)@.listener, old(self)@.change_notes(final(self)@)),
    {
        proof {
            use_type_invariant(&*self);
        }
        let ghost before = self@;
        let ghost keep = other_than(submitted.message_hash);
        let mut kept: Vec<PendingTransaction> = Vec::new();
        let mut i: usize = 0;
        assert(self.pending@.take(0).filter(keep) =~= Seq::<PendingTransaction>::empty()) by {
            reveal(Seq::filter);
        }
        while i < self.pending.len()
            invariant
                i <= self.pending.len(),
                keep == other_than(submitted.message_hash),
                kept@ == self.pending@.take(i as int).filter(keep),
            decreases self.pending.len() - i,
        {
            proof {
                lemma_filter_step(self.pending@, keep, i as int);
            }
            if !self.pending[i].message_hash.same_as(&submitted.message_hash) {
                kept.push(self.pending[i]);
            }
            i += 1;
        }
        assert(self.pending@.take(i as int) == self.pending@);
        kept.push(submitted);
        let n: usize = self.pending.len();
        let unchanged = n > 0 && kept.len() == n && same_pending(&self.pending[n - 1], &submitted);
        proof {
            let s = before.pending;
            lemma_filter_keeps_distinct_hashes(s, keep);
            lemma_filter_subset(s, keep);
            lemma_filter_all_or_shorter(s, keep);
            if unchanged {
                lemma_filter_step(s, keep, n - 1);
                assert(s.take(n - 1).filter(keep).len() == n - 1);
                s.take(n - 1).lemma_filter_len(keep);
                lemma_filter_all_or_shorter(s.take(n - 1), keep);
                assert(s.take(n - 1).push(submitted) == s);
            } else if n > 0 && kept.len() == n {
                assert(kept@.last() == submitted);
            }
        }
        self.pending = kept;
        let mut notes: Vec<Notification> = Vec::new();
        if !unchanged {
            assert(self@ != before) by {
                if n > 0 && self.pending@.len() == n {
                    assert(self@.pending.last() != before.pending.last());
                }
            }
            notes.push(Notification::StateChanged(self.contract_state));
        } else {
            assert(self@.pending == before.pending);
        }
        assert(notes@ =~= before.change_notes(self@));
        self.listener.address(&notes)
    }

    /// Feeds a block to the wallet.
    ///
    /// The contract state becomes the block's, where the block has one.
    /// A message in flight that the block executed is no longer in flight;
    /// one that the block did not execute and whose expiration the block's
    /// time has reached is no longer in flight either, and the listener is
    /// told that it expired. A proposal that the block brought to full
    /// confirmation no longer waits. Last, the listener is told if any of
    /// this changed the wallet.
    pub fn handle_block(&mut self, block: &BlockRecord) -> (sent: Vec<Delivery>)
        ensures
            final(self)@ == old(self)@.after_block(block@),
            sent@ == deliveries(old(self)@.listener, old(self)@.block_notes(block@)),
    {
        proof {
            use_type_invariant(&*self);
        }
        let ghost before = self@;
        let ghost stays = stays_pending(block@);
        let ghost expires = expires_with(block@);
        let ghost waits = stays_unconfirmed(block@);
        let mut notes: Vec<Notification> = Vec::new();
        let mut kept: Vec<PendingTransaction> = Vec::new();
        let mut i: usize = 0;
        proof {
            reveal(Seq::filter);
            assert(self.pending@.take(0).filter(stays) =~= Seq::<PendingTransaction>::empty());
            assert(self.pending@.take(0).filter(expires) =~= Seq::<PendingTransaction>::empty());
            assert(self.unconfirmed@.take(0).filter(waits) =~= Seq::<UnconfirmedTransaction>::empty());
        }
        while i < self.pending.len()
            invariant
                i <= self.pending.len(),
                stays == stays_pending(block@),
                expires == expires_with(block@),
                kept@ == self.pending@.take(i as int).filter(stays),
                notes@ == expiry_notes(self.pending@.take(i as int).filter(expires)),
            decreases self.pending.len() - i,
        {
            proof {
                lemma_filter_step(self.pending@, stays, i as int);
                lemma_filter_step(self.pending@, expires, i as int);
            }
            let entry = self.pending[i];
            if !block.confirms(&entry.message_hash) {
                if entry.expire_at > block.time {
                    kept.push(entry);
                } else {
                    notes.push(Notification::MessageExpired(entry));
                }
            }
            i += 1;
            assert(notes@ =~= expiry_notes(self.pending@.take(i as int).filter(expires)));
        }
        assert(self.pending@.take(i as int) == self.pending@);
        let mut waiting: Vec<UnconfirmedTransaction> = Vec::new();
        let mut j: usize = 0;
        while j < self.unconfirmed.len()
            invariant
                j <= self.unconfirmed.len(),
                waits == stays_unconfirmed(block@),
                waiting@ == self.unconfirmed@.take(j as int).filter(waits),
            decreases self.unconfirmed.len() - j,
        {
            proof {
                lemma_filter_step(self.unconfirmed@, waits, j as int);
            }
            let proposal = self.unconfirmed[j];
            if !block.completes(proposal.id) {
                waiting.push(proposal);
            }
            j += 1;
        }
        assert(self.unconfirmed@.take(j as int) == self.unconfirmed@);
        let contract_state = match block.contract_state {
            Some(state) => state,
            None => self.contract_state,
        };
        let changed = !self.contract_state.same_as(&contract_state) || kept.len()
            != self.pending.len() || waiting.len() != self.unconfirmed.len();
        proof {
            lemma_rules_keep_wf(before, contract_state, self.pending@[0], block@);
            lemma_filter_all_or_shorter(before.pending, stays);
            lemma_filter_all_or_shorter(before.unconfirmed, waits);
        }
        self.contract_state = contract_state;
        self.pending = kept;
        self.unconfirmed = waiting;
        assert(self@ == before.after_block(block@));
        if changed {
            notes.push(Notification::StateChanged(contract_state));
        }
        assert(notes@ =~= before.block_notes(block@));
        self.listener.address(&notes)
    }

    /// The wallet in one piece, with the custodians as texts.
    pub fn info(&self) -> (info: TonWalletInfo)
        ensures
            info.workchain == self@.workchain,
            info.address@ == self@.address,
            info.public_key == self@.public_key,
            info.wallet_type == self@.wallet_type,
            info.contract_state == self@.contract_state,
            info.details == self@.details,
            match info.custodians {
                Some(texts) => self@.custodians is Some && texts_view(texts@) == custodian_texts(
                    keys_view(self@.custodians->0),
                ),
                None => self@.custodians is None,
            },
    {
        let custodians = match &self.custodians {
            Some(keys) => Some(custodians_to_hex(keys)),
            None => None,
        };
        TonWalletInfo {
            workchain: self.workchain,
            address: self.address.clone(),
            public_key: self.public_key,
            wallet_type: self.wallet_type,
            contract_state: self.contract_state,
            details: self.details,
            custodians,
        }
    }
}

/// Whether two entries are the same.
pub fn same_pending(a: &PendingTransaction, b: &PendingTransaction) -> (same: bool)
    ensures
        same == (*a == *b),
{
    a.expire_at == b.expire_at && a.message_hash.same_as(&b.message_hash)
}

/// A submission puts its message in flight exactly once: the new entry is
/// the last one, no other entry has its hash, and where the hash was not
/// in flight before, every earlier entry is still there, in place.
pub proof fn lemma_send_tracks_once(w: WalletView, sent: PendingTransaction)
    requires
        w.wf(),
    ensures
        w.after_send(sent).pending.last() == sent,
        forall|i: int|
            0 <= i < w.after_send(sent).pending.len() - 1 ==> (#[trigger] w.after_send(
                sent,
            ).pending[i]).message_hash != sent.message_hash,
        !w.tracks(sent.message_hash) ==> w.after_send(sent).pending == w.pending.push(sent),
{
    let keep = other_than(sent.message_hash);
    lemma_filter_subset(w.pending, keep);
    lemma_filter_all_or_shorter(w.pending, keep);
    let after = w.after_send(sent).pending;
    assert forall|i: int| 0 <= i < after.len() - 1 implies (#[trigger] after[i]).message_hash
        != sent.message_hash by {
        assert(after[i] == w.pending.filter(keep)[i]);
        assert(keep(w.pending.filter(keep)[i]));
    }
    if !w.tracks(sent.message_hash) {
        assert forall|i: int| 0 <= i < w.pending.len() implies keep(#[trigger] w.pending[i]) by {
            assert(w.pending[i].message_hash != sent.message_hash);
        }
    }
}

/// What a block settles, and what it leaves alone: a message that the
/// block executed is no longer in flight, nor is one whose expiration the
/// block's time has reached; every other message in flight stays; a
/// proposal that the block completed no longer waits, and every other
/// waiting proposal stays.
pub proof fn lemma_block_settles(w: WalletView, block: BlockRecordView)
    requires
        w.wf(),
    ensures
        forall|hash: UInt256| block.confirms(hash) ==> !(#[trigger] w.after_block(block).tracks(hash)),
        forall|i: int|
            0 <= i < w.pending.len() ==> (w.after_block(block).pending.contains(
                #[trigger] w.pending[i],
            ) <==> !block.confirms(w.pending[i].message_hash) && w.pending[i].expire_at
                > block.time),
        forall|id: u64| block.completes(id) ==> !(#[trigger] w.after_block(block).awaits(id)),
        forall|i: int|
            0 <= i < w.unconfirmed.len() ==> (w.after_block(block).unconfirmed.contains(
                #[trigger] w.unconfirmed[i],
            ) <==> !block.completes(w.unconfirmed[i].id)),
        forall|p: PendingTransaction|
            w.after_block(block).pending.contains(p) ==> #[trigger] w.pending.contains(p),
        forall|u: UnconfirmedTransaction|
            w.after_block(block).unconfirmed.contains(u) ==> #[trigger] w.unconfirmed.contains(u),
{
    let stays = stays_pending(block);
    let waits = stays_unconfirmed(block);
    let after = w.after_block(block);
    lemma_filter_subset(w.pending, stays);
    lemma_filter_subset(w.unconfirmed, waits);
    assert forall|hash: UInt256| block.confirms(hash) implies !(#[trigger] after.tracks(hash)) by {
        if after.tracks(hash) {
            let i = choose|i: int|
                0 <= i < after.pending.len() && (#[trigger] after.pending[i]).message_hash == hash;
            assert(stays(after.pending[i]));
        }
    }
    assert forall|i: int| 0 <= i < w.pending.len() implies (after.pending.contains(
        #[trigger] w.pending[i],
    ) <==> !block.confirms(w.pending[i].message_hash) && w.pending[i].expire_at > block.time) by {
        if stays(w.pending[i]) {
            w.pending.lemma_filter_contains(stays, i);
        }
        if after.pending.contains(w.pending[i]) {
            let k = choose|k: int| 0 <= k < after.pending.len() && after.pending[k] == w.pending[i];
            assert(stays(after.pending[k]));
        }
    }
    assert forall|id: u64| block.completes(id) implies !(#[trigger] after.awaits(id)) by {
        if after.awaits(id) {
            let i = choose|i: int|
                0 <= i < after.unconfirmed.len() && (#[trigger] after.unconfirmed[i]).id == id;
            assert(waits(after.unconfirmed[i]));
        }
    }
    assert forall|i: int| 0 <= i < w.unconfirmed.len() implies (after.unconfirmed.contains(
        #[trigger] w.unconfirmed[i],
    ) <==> !block.completes(w.unconfirmed[i].id)) by {
        if waits(w.unconfirmed[i]) {
            w.unconfirmed.lemma_filter_contains(waits, i);
        }
        if after.unconfirmed.contains(w.unconfirmed[i]) {
            let k = choose|k: int|
                0 <= k < after.unconfirmed.len() && after.unconfirmed[k] == w.unconfirmed[i];
            assert(waits(after.unconfirmed[k]));
        }
    }
    assert forall|p: PendingTransaction| after.pending.contains(p) implies #[trigger] w.pending.contains(
        p,
    ) by {
        let k = choose|k: int| 0 <= k < after.pending.len() && after.pending[k] == p;
        assert(w.pending.contains(after.pending[k]));
    }
    assert forall|u: UnconfirmedTransaction|
        after.unconfirmed.contains(u) implies #[trigger] w.unconfirmed.contains(u) by {
        let k = choose|k: int| 0 <= k < after.unconfirmed.len() && after.unconfirmed[k] == u;
        assert(w.unconfirmed.contains(after.unconfirmed[k]));
    }
}

} // verus!

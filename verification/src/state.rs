//! The state of the funder: relays, friends, open invoices, open
//! transactions and payments, and the mutations that move it.
use vstd::prelude::*;
use im::hashset::HashSet;
use im::vector::Vector;
use crate::friend::{FriendMutation, FriendState, FriendStateView};
use crate::ids::{HashedLock, InvoiceId, PaymentId, PlainLock, PublicKey, Uid};
use crate::im_collections::{
    insert_request_id, new_request_id_set, push_back_relay, relay_list_from_vec, relay_list_items,
    request_id_set, retain_relays_without_key,
};
use crate::key_map::KeyMap;
use crate::laws::{funder_invariant, relay_keys_unique};
use crate::messages::{AddFriend, Currency, NamedRelayAddress, Receipt, ResponseSendFundsOp};

verus! {

/// A state of a payment where new transactions may still be added.
#[derive(Clone, Debug, PartialEq, Eq)]
pub struct NewTransactions {
    pub num_transactions: u64,
    pub invoice_id: InvoiceId,
    pub currency: Currency,
    pub total_dest_payment: u128,
    pub dest_public_key: PublicKey,
}

/// Where a payment stands.
#[derive(Clone, Debug, PartialEq, Eq)]
pub enum PaymentStage {
    /// The user can add new transactions.
    NewTransactions(NewTransactions),
    /// The user can no longer add new transactions: (num_transactions).
    InProgress(u64),
    /// A receipt was received: (num_transactions, receipt, ack_uid).
    Success(u64, Receipt, Uid),
    /// The payment will not complete, because all transactions were
    /// canceled: (ack_uid).
    Canceled(Uid),
    /// The user already acked; the remaining transactions are still
    /// finishing: (num_transactions).
    AfterSuccessAck(u64),
}

/// A payment that this node makes (as the buyer).
#[derive(Clone, Debug, PartialEq, Eq)]
pub struct Payment {
    pub src_plain_lock: PlainLock,
    pub stage: PaymentStage,
}

/// An invoice that this node issued (as the seller), in progress.
pub struct OpenInvoice {
    /// Currency in use for this invoice.
    pub currency: Currency,
    /// Total payment required to fulfill this invoice.
    pub total_dest_payment: u128,
    /// The lock used on the response; kept to send a valid collect later.
    pub dest_plain_lock: PlainLock,
    /// Lock created by the originator of the transactions that fulfill this
    /// invoice; all of them are expected to carry the same lock.
    pub opt_src_hashed_lock: Option<HashedLock>,
    /// A multi-route payment may use several transactions for one invoice.
    pub incoming_transactions: HashSet<Uid>,
}

/// What an open invoice holds, its transactions as a set.
pub struct OpenInvoiceView {
    pub currency: Currency,
    pub total_dest_payment: u128,
    pub dest_plain_lock: PlainLock,
    pub opt_src_hashed_lock: Option<HashedLock>,
    pub incoming_transactions: Set<Uid>,
}

impl View for OpenInvoice {
    type V = OpenInvoiceView;

    open spec fn view(&self) -> OpenInvoiceView {
        OpenInvoiceView {
            currency: self.currency,
            total_dest_payment: self.total_dest_payment,
            dest_plain_lock: self.dest_plain_lock,
            opt_src_hashed_lock: self.opt_src_hashed_lock,
            incoming_transactions: request_id_set(self.incoming_transactions),
        }
    }
}

impl OpenInvoiceView {
    /// An invoice just issued: no source lock yet, no transactions.
    pub open spec fn fresh(currency: Currency, total_dest_payment: u128, dest_plain_lock: PlainLock) -> OpenInvoiceView {
        OpenInvoiceView {
            currency,
            total_dest_payment,
            dest_plain_lock,
            opt_src_hashed_lock: None,
            incoming_transactions: Set::empty(),
        }
    }
}

impl OpenInvoice {
    /// An invoice just issued.
    pub fn new(currency: Currency, total_dest_payment: u128, dest_plain_lock: PlainLock) -> (r: Self)
        ensures
            r@ == OpenInvoiceView::fresh(currency, total_dest_payment, dest_plain_lock),
    {
        OpenInvoice {
            currency,
            total_dest_payment,
            dest_plain_lock,
            opt_src_hashed_lock: None,
            incoming_transactions: new_request_id_set(),
        }
    }
}

/// A request that this node originated, in progress.
#[derive(Clone, Copy, Debug, PartialEq, Eq)]
pub struct OpenTransaction {
    pub payment_id: PaymentId,
    /// A response, if one came.
    pub opt_response: Option<ResponseSendFundsOp>,
}

/// A change to the state of the funder.
#[derive(Clone, Debug)]
pub enum FunderMutation {
    FriendMutation(PublicKey, FriendMutation),
    AddRelay(NamedRelayAddress),
    RemoveRelay(PublicKey),
    AddFriend(AddFriend),
    RemoveFriend(PublicKey),
    /// (invoice_id, currency, total_dest_payment, dest_plain_lock)
    AddInvoice(InvoiceId, Currency, u128, PlainLock),
    /// (invoice_id, request_id)
    AddIncomingTransaction(InvoiceId, Uid),
    /// (invoice_id, src_hashed_lock)
    SetInvoiceSrcHashedLock(InvoiceId, HashedLock),
    RemoveInvoice(InvoiceId),
    /// (request_id, payment_id)
    AddTransaction(Uid, PaymentId),
    SetTransactionResponse(ResponseSendFundsOp),
    /// (request_id)
    RemoveTransaction(Uid),
    UpdatePayment(PaymentId, Payment),
    RemovePayment(PaymentId),
}

/// The state of the funder.
pub struct FunderState {
    /// Public key of this node.
    pub local_public_key: PublicKey,
    /// Addresses of relays this node connects to.
    pub relays: Vector<NamedRelayAddress>,
    /// All configured friends and their state.
    pub friends: KeyMap<PublicKey, FriendState>,
    /// Locally issued invoices in progress (this node is the seller).
    pub open_invoices: KeyMap<InvoiceId, OpenInvoice>,
    /// Locally created transactions in progress (this node is the buyer).
    pub open_transactions: KeyMap<Uid, OpenTransaction>,
    /// Ongoing payments (this node is the buyer).
    pub payments: KeyMap<PaymentId, Payment>,
}

/// What the state of the funder holds.
pub struct FunderStateView {
    pub local_public_key: PublicKey,
    pub relays: Seq<NamedRelayAddress>,
    pub friends: Map<PublicKey, FriendStateView>,
    pub open_invoices: Map<InvoiceId, OpenInvoiceView>,
    pub open_transactions: Map<Uid, OpenTransaction>,
    pub payments: Map<PaymentId, Payment>,
}

impl View for FunderState {
    type V = FunderStateView;

    open spec fn view(&self) -> FunderStateView {
        FunderStateView {
            local_public_key: self.local_public_key,
            relays: relay_list_items(self.relays),
            friends: self.friends@.map_values(|f: FriendState| f@),
            open_invoices: self.open_invoices@.map_values(|i: OpenInvoice| i@),
            open_transactions: self.open_transactions@,
            payments: self.payments@,
        }
    }
}

/// The relays of `relays` whose key is not `key`, in order.
pub open spec fn relays_without_key(relays: Seq<NamedRelayAddress>, key: PublicKey) -> Seq<NamedRelayAddress> {
    relays.filter(|r: NamedRelayAddress| r.public_key != key)
}

impl FunderStateView {
    /// A mutation can be applied without breaking an expectation of the
    /// funder: the friend to change exists and accepts the change, a friend
    /// to add is new, the invoice to change exists, a source lock is set
    /// once, and a transaction gets one response.
    pub open spec fn accepts(self, m: FunderMutation) -> bool {
        match m {
            FunderMutation::FriendMutation(pk, fm) => {
                &&& self.friends.contains_key(pk)
                &&& self.friends[pk].accepts(fm)
            },
            FunderMutation::AddFriend(add_friend) => !self.friends.contains_key(add_friend.friend_public_key),
            FunderMutation::AddIncomingTransaction(invoice_id, _) => self.open_invoices.contains_key(invoice_id),
            FunderMutation::SetInvoiceSrcHashedLock(invoice_id, _) => {
                &&& self.open_invoices.contains_key(invoice_id)
                &&& self.open_invoices[invoice_id].opt_src_hashed_lock is None
            },
            FunderMutation::SetTransactionResponse(response) => {
                &&& self.open_transactions.contains_key(response.request_id)
                &&& self.open_transactions[response.request_id].opt_response is None
            },
            _ => true,
        }
    }

    /// The state after a mutation.
    pub open spec fn mutated(self, m: FunderMutation) -> FunderStateView {
        match m {
            FunderMutation::FriendMutation(pk, fm) => FunderStateView {
                friends: self.friends.insert(pk, self.friends[pk].mutated(fm)),
                ..self
            },
            FunderMutation::AddRelay(named) => FunderStateView {
                relays: relays_without_key(self.relays, named.public_key).push(named),
                ..self
            },
            FunderMutation::RemoveRelay(pk) => FunderStateView {
                relays: relays_without_key(self.relays, pk),
                ..self
            },
            FunderMutation::AddFriend(af) => FunderStateView {
                friends: self.friends.insert(
                    af.friend_public_key,
                    FriendStateView::fresh(self.local_public_key, af.friend_public_key, af.relays, af.name, af.balance),
                ),
                ..self
            },
            FunderMutation::RemoveFriend(pk) => FunderStateView {
                friends: self.friends.remove(pk),
                ..self
            },
            FunderMutation::AddInvoice(invoice_id, currency, total, lock) => FunderStateView {
                open_invoices: self.open_invoices.insert(invoice_id, OpenInvoiceView::fresh(currency, total, lock)),
                ..self
            },
            FunderMutation::AddIncomingTransaction(invoice_id, request_id) => FunderStateView {
                open_invoices: self.open_invoices.insert(
                    invoice_id,
                    OpenInvoiceView {
                        incoming_transactions: self.open_invoices[invoice_id].incoming_transactions.insert(request_id),
                        ..self.open_invoices[invoice_id]
                    },
                ),
                ..self
            },
            FunderMutation::SetInvoiceSrcHashedLock(invoice_id, lock) => FunderStateView {
                open_invoices: self.open_invoices.insert(
                    invoice_id,
                    OpenInvoiceView { opt_src_hashed_lock: Some(lock), ..self.open_invoices[invoice_id] },
                ),
                ..self
            },
            FunderMutation::RemoveInvoice(invoice_id) => FunderStateView {
                open_invoices: self.open_invoices.remove(invoice_id),
                ..self
            },
            FunderMutation::AddTransaction(request_id, payment_id) => FunderStateView {
                open_transactions: self.open_transactions.insert(
                    request_id,
                    OpenTransaction { payment_id, opt_response: None },
                ),
                ..self
            },
            FunderMutation::SetTransactionResponse(response) => FunderStateView {
                open_transactions: self.open_transactions.insert(
                    response.request_id,
                    OpenTransaction {
                        opt_response: Some(response),
                        ..self.open_transactions[response.request_id]
                    },
                ),
                ..self
            },
            FunderMutation::RemoveTransaction(request_id) => FunderStateView {
                open_transactions: self.open_transactions.remove(request_id),
                ..self
            },
            FunderMutation::UpdatePayment(payment_id, payment) => FunderStateView {
                payments: self.payments.insert(payment_id, payment),
                ..self
            },
            FunderMutation::RemovePayment(payment_id) => FunderStateView {
                payments: self.payments.remove(payment_id),
                ..self
            },
        }
    }
}

/// Every mutation of `ms` is accepted by the state that the ones before it
/// leave.
pub open spec fn accepts_in_order(s: FunderStateView, ms: Seq<FunderMutation>) -> bool
    decreases ms.len(),
{
    ms.len() == 0 || (s.accepts(ms[0]) && accepts_in_order(s.mutated(ms[0]), ms.drop_first()))
}

/// The state after the mutations of `ms`, in order.
pub open spec fn mutated_in_order(s: FunderStateView, ms: Seq<FunderMutation>) -> FunderStateView
    decreases ms.len(),
{
    if ms.len() == 0 {
        s
    } else {
        mutated_in_order(s.mutated(ms[0]), ms.drop_first())
    }
}

/// Splitting a run of mutations after its first `i` ones.
pub proof fn lemma_in_order_prefix(s: FunderStateView, ms: Seq<FunderMutation>, i: int)
    requires
        0 <= i < ms.len(),
        accepts_in_order(s, ms.take(i)),
    ensures
        accepts_in_order(s, ms.take(i + 1)) == mutated_in_order(s, ms.take(i)).accepts(ms[i]),
        mutated_in_order(s, ms.take(i + 1)) == mutated_in_order(s, ms.take(i)).mutated(ms[i]),
    decreases i,
{
    if i > 0 {
        assert(ms.take(i)[0] == ms[0]);
        assert(ms.take(i + 1)[0] == ms[0]);
        assert(ms.take(i).drop_first() =~= ms.drop_first().take(i - 1));
        assert(ms.take(i + 1).drop_first() =~= ms.drop_first().take(i));
        assert(ms.drop_first()[i - 1] == ms[i]);
        lemma_in_order_prefix(s.mutated(ms[0]), ms.drop_first(), i - 1);
    } else {
        assert(ms.take(0) =~= Seq::<FunderMutation>::empty());
        assert(ms.take(1)[0] == ms[0]);
        assert(ms.take(1).drop_first() =~= Seq::<FunderMutation>::empty());
        assert(mutated_in_order(s.mutated(ms[0]), Seq::<FunderMutation>::empty()) == s.mutated(ms[0]));
        assert(accepts_in_order(s.mutated(ms[0]), Seq::<FunderMutation>::empty()));
    }
}

impl FunderState {
    /// The maps of the state are well formed, and finite.
    pub open spec fn wf(&self) -> bool {
        &&& self.friends.wf()
        &&& self.open_invoices.wf()
        &&& self.open_transactions.wf()
        &&& self.payments.wf()
        &&& self@.friends.dom().finite()
        &&& self@.open_invoices.dom().finite()
        &&& self@.open_transactions.dom().finite()
        &&& self@.payments.dom().finite()
    }

    /// A funder with the given relays, in order, and nothing else.
    pub fn new(local_public_key: PublicKey, relays: Vec<NamedRelayAddress>) -> (r: Self)
        ensures
            r.wf(),
            r@.local_public_key == local_public_key,
            r@.relays == relays@,
            r@.friends == Map::<PublicKey, FriendStateView>::empty(),
            r@.open_invoices == Map::<InvoiceId, OpenInvoiceView>::empty(),
            r@.open_transactions == Map::<Uid, OpenTransaction>::empty(),
            r@.payments == Map::<PaymentId, Payment>::empty(),
            relay_keys_unique(relays@) ==> funder_invariant(r@),
    {
        let r = FunderState {
            local_public_key,
            relays: relay_list_from_vec(relays),
            friends: KeyMap::new(),
            open_invoices: KeyMap::new(),
            open_transactions: KeyMap::new(),
            payments: KeyMap::new(),
        };
        assert(r@.friends =~= Map::<PublicKey, FriendStateView>::empty());
        assert(r@.open_invoices =~= Map::<InvoiceId, OpenInvoiceView>::empty());
        r
    }

    /// Whether the state accepts a mutation (see `FunderStateView::accepts`).
    pub fn can_apply(&self, funder_mutation: &FunderMutation) -> (r: bool)
        requires
            self.wf(),
        ensures
            r == self@.accepts(*funder_mutation),
    {
        match funder_mutation {
            FunderMutation::FriendMutation(public_key, friend_mutation) => match self.friends.get(public_key) {
                Some(friend) => friend.accepts(friend_mutation),
                None => false,
            },
            FunderMutation::AddFriend(add_friend) => !self.friends.contains_key(&add_friend.friend_public_key),
            FunderMutation::AddIncomingTransaction(invoice_id, _) => self.open_invoices.contains_key(invoice_id),
            FunderMutation::SetInvoiceSrcHashedLock(invoice_id, _) => match self.open_invoices.get(invoice_id) {
                Some(open_invoice) => open_invoice.opt_src_hashed_lock.is_none(),
                None => false,
            },
            FunderMutation::SetTransactionResponse(response) => match self.open_transactions.get(&response.request_id) {
                Some(open_transaction) => open_transaction.opt_response.is_none(),
                None => false,
            },
            _ => true,
        }
    }

    /// Applies mutations in order, as long as each is accepted. Gives back
    /// the index of the first one that is not, which is left unapplied with
    /// all after it.
    pub fn apply_mutations(&mut self, mutations: Vec<FunderMutation>) -> (r: Option<usize>)
        requires
            old(self).wf(),
        ensures
            final(self).wf(),
            match r {
                None => {
                    &&& accepts_in_order(old(self)@, mutations@)
                    &&& final(self)@ == mutated_in_order(old(self)@, mutations@)
                },
                Some(i) => {
                    &&& i < mutations@.len()
                    &&& accepts_in_order(old(self)@, mutations@.take(i as int))
                    &&& final(self)@ == mutated_in_order(old(self)@, mutations@.take(i as int))
                    &&& !final(self)@.accepts(mutations@[i as int])
                },
            },
    {
        let ghost start = self@;
        let ghost all = mutations@;
        let total: usize = mutations.len();
        let mut rest = mutations;
        let mut i: usize = 0;
        assert(all.take(0) =~= Seq::<FunderMutation>::empty());
        while rest.len() > 0
            invariant
                self.wf(),
                i <= all.len(),
                all == mutations@,
                all.len() == total,
                start == old(self)@,
                rest@ == all.skip(i as int),
                accepts_in_order(start, all.take(i as int)),
                self@ == mutated_in_order(start, all.take(i as int)),
            decreases rest@.len(),
        {
            assert(rest@.len() == all.len() - i);
            let m = rest.remove(0);
            assert(m == all[i as int]);
            proof {
                lemma_in_order_prefix(start, all, i as int);
            }
            if !self.can_apply(&m) {
                return Some(i);
            }
            self.mutate(m);
            assert(i < all.len());
            i = i + 1;
            assert(rest@ =~= all.skip(i as int));
        }
        assert(all.take(i as int) =~= all);
        None
    }

    /// Applies a mutation.
    pub fn mutate(&mut self, funder_mutation: FunderMutation)
        requires
            old(self).wf(),
            old(self)@.accepts(funder_mutation),
        ensures
            final(self).wf(),
            final(self)@ == old(self)@.mutated(funder_mutation),
    {
        let ghost pre = self@;
        match funder_mutation {
            FunderMutation::FriendMutation(public_key, friend_mutation) => {
                let mut friend = self.friends.remove(&public_key).unwrap();
                friend.mutate(friend_mutation);
                let _ = self.friends.insert(public_key, friend);
                assert(self@.friends =~= pre.friends.insert(public_key, pre.friends[public_key].mutated(friend_mutation)));
            },
            FunderMutation::AddRelay(named_relay_address) => {
                // Check for duplicates:
                retain_relays_without_key(&mut self.relays, &named_relay_address.public_key);
                push_back_relay(&mut self.relays, named_relay_address);
            },
            FunderMutation::RemoveRelay(public_key) => {
                retain_relays_without_key(&mut self.relays, &public_key);
            },
            FunderMutation::AddFriend(add_friend) => {
                let friend_public_key = add_friend.friend_public_key;
                let friend = FriendState::new(
                    &self.local_public_key,
                    &friend_public_key,
                    add_friend.relays,
                    add_friend.name,
                    add_friend.balance,
                );
                let _ = self.friends.insert(friend_public_key, friend);
                assert(self@.friends =~= pre.friends.insert(
                    friend_public_key,
                    FriendStateView::fresh(pre.local_public_key, friend_public_key, add_friend.relays, add_friend.name, add_friend.balance),
                ));
            },
            FunderMutation::RemoveFriend(public_key) => {
                let _ = self.friends.remove(&public_key);
                assert(self@.friends =~= pre.friends.remove(public_key));
            },
            FunderMutation::AddInvoice(invoice_id, currency, total_dest_payment, dest_plain_lock) => {
                let invoice = OpenInvoice::new(currency, total_dest_payment, dest_plain_lock);
                let _ = self.open_invoices.insert(invoice_id, invoice);
                assert(self@.open_invoices =~= pre.open_invoices.insert(
                    invoice_id,
                    OpenInvoiceView::fresh(currency, total_dest_payment, dest_plain_lock),
                ));
            },
            FunderMutation::AddIncomingTransaction(invoice_id, request_id) => {
                let mut open_invoice = self.open_invoices.remove(&invoice_id).unwrap();
                insert_request_id(&mut open_invoice.incoming_transactions, request_id);
                let _ = self.open_invoices.insert(invoice_id, open_invoice);
                assert(self@.open_invoices =~= pre.open_invoices.insert(
                    invoice_id,
                    OpenInvoiceView {
                        incoming_transactions: pre.open_invoices[invoice_id].incoming_transactions.insert(request_id),
                        ..pre.open_invoices[invoice_id]
                    },
                ));
            },
            FunderMutation::SetInvoiceSrcHashedLock(invoice_id, src_hashed_lock) => {
                let mut open_invoice = self.open_invoices.remove(&invoice_id).unwrap();
                open_invoice.opt_src_hashed_lock = Some(src_hashed_lock);
                let _ = self.open_invoices.insert(invoice_id, open_invoice);
                assert(self@.open_invoices =~= pre.open_invoices.insert(
                    invoice_id,
                    OpenInvoiceView { opt_src_hashed_lock: Some(src_hashed_lock), ..pre.open_invoices[invoice_id] },
                ));
            },
            FunderMutation::RemoveInvoice(invoice_id) => {
                let _ = self.open_invoices.remove(&invoice_id);
                assert(self@.open_invoices =~= pre.open_invoices.remove(invoice_id));
            },
            FunderMutation::AddTransaction(request_id, payment_id) => {
                let open_transaction = OpenTransaction { payment_id, opt_response: None };
                let _ = self.open_transactions.insert(request_id, open_transaction);
            },
            FunderMutation::SetTransactionResponse(response_send_funds) => {
                let request_id = response_send_funds.request_id;
                let mut open_transaction = self.open_transactions.remove(&request_id).unwrap();
                open_transaction.opt_response = Some(response_send_funds);
                let _ = self.open_transactions.insert(request_id, open_transaction);
                assert(self@.open_transactions =~= pre.open_transactions.insert(
                    request_id,
                    OpenTransaction { opt_response: Some(response_send_funds), ..pre.open_transactions[request_id] },
                ));
            },
            FunderMutation::RemoveTransaction(request_id) => {
                let _ = self.open_transactions.remove(&request_id);
            },
            FunderMutation::UpdatePayment(payment_id, payment) => {
                let _ = self.payments.insert(payment_id, payment);
            },
            FunderMutation::RemovePayment(payment_id) => {
                let _ = self.payments.remove(&payment_id);
            },
        }
    }
}

} // verus!

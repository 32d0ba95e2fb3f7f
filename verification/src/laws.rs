//! Properties of the funder that span several operations: the invariants
//! that every mutation keeps, what one mutation undoes of another, and how
//! the event loop moves.
use vstd::prelude::*;
use crate::friend::{FriendMutation, FriendStateView};
use crate::funder::{expects_input, next_step, reports_action, EventKind, LoopAction, LoopInput, LoopStage};
use crate::ids::{InvoiceId, PaymentId, PlainLock, PublicKey, Uid};
use crate::friend::{ChannelStatus, ResponseOp};
use crate::messages::{AddFriend, Currency, NamedRelayAddress, RequestSendFunds, ResponseSendFundsOp, FriendStatus};
use crate::token_channel::TcMutation;
use crate::state::{
    accepts_in_order, mutated_in_order, relays_without_key, FunderMutation, FunderStateView, Payment,
};

verus! {

/// No two relays share a public key.
pub open spec fn relay_keys_unique(relays: Seq<NamedRelayAddress>) -> bool {
    forall|i: int, j: int|
        0 <= i < j < relays.len() ==> #[trigger] relays[i].public_key != #[trigger] relays[j].public_key
}

/// Each friend is filed under its own remote key, and shares the node's
/// local key.
pub open spec fn friends_match_keys(s: FunderStateView) -> bool {
    forall|pk: PublicKey| #[trigger]
        s.friends.contains_key(pk) ==> s.friends[pk].remote_public_key == pk
            && s.friends[pk].local_public_key == s.local_public_key
}

/// What every reachable funder state satisfies.
pub open spec fn funder_invariant(s: FunderStateView) -> bool {
    relay_keys_unique(s.relays) && friends_match_keys(s)
}

/// Dropping the relays with a key keeps the others' keys distinct, leaves
/// no relay with that key, and keeps only relays that were there.
pub proof fn lemma_relays_without_key(relays: Seq<NamedRelayAddress>, key: PublicKey)
    requires
        relay_keys_unique(relays),
    ensures
        relay_keys_unique(relays_without_key(relays, key)),
        forall|i: int|
            0 <= i < relays_without_key(relays, key).len() ==> #[trigger] relays_without_key(relays, key)[i].public_key
                != key,
        forall|r: NamedRelayAddress| #[trigger] relays_without_key(relays, key).contains(r) ==> relays.contains(r),
    decreases relays.len(),
{
    reveal(Seq::filter);
    broadcast use vstd::seq_lib::group_filter_ensures;
    let out = relays_without_key(relays, key);
    if relays.len() > 0 {
        let rest = relays.drop_last();
        let last = relays.last();
        assert(relay_keys_unique(rest)) by {
            assert forall|i: int, j: int| 0 <= i < j < rest.len() implies #[trigger] rest[i].public_key
                != #[trigger] rest[j].public_key by {
                assert(rest[i] == relays[i] && rest[j] == relays[j]);
            }
        }
        lemma_relays_without_key(rest, key);
        let sub = relays_without_key(rest, key);
        assert forall|r: NamedRelayAddress| #[trigger] out.contains(r) implies relays.contains(r) by {
            if r != last {
                assert(sub.contains(r));
                assert(rest.contains(r));
                let j = choose|j: int| 0 <= j < rest.len() && rest[j] == r;
                assert(relays[j] == r);
            } else {
                assert(relays[relays.len() - 1] == r);
            }
        }
        if last.public_key != key {
            assert(out == sub.push(last));
            assert forall|i: int, j: int| 0 <= i < j < out.len() implies #[trigger] out[i].public_key
                != #[trigger] out[j].public_key by {
                if j == out.len() - 1 {
                    assert(out[i] == sub[i]);
                    assert(sub.contains(sub[i]));
                    assert(rest.contains(sub[i]));
                    let k = choose|k: int| 0 <= k < rest.len() && rest[k] == sub[i];
                    assert(relays[k] == sub[i]);
                    assert(out[j] == relays[relays.len() - 1]);
                } else {
                    assert(out[i] == sub[i] && out[j] == sub[j]);
                }
            }
            assert forall|i: int| 0 <= i < out.len() implies #[trigger] out[i].public_key != key by {
                if i < out.len() - 1 {
                    assert(out[i] == sub[i]);
                }
            }
        } else {
            assert(out == sub);
        }
    }
}

/// After adding a relay, the relay list ends with it and holds no other
/// relay with its key.
pub proof fn lemma_add_relay_replaces(s: FunderStateView, named: NamedRelayAddress)
    requires
        relay_keys_unique(s.relays),
    ensures
        ({
            let relays = s.mutated(FunderMutation::AddRelay(named)).relays;
            &&& relays.last() == named
            &&& forall|i: int| 0 <= i < relays.len() - 1 ==> #[trigger] relays[i].public_key != named.public_key
        }),
{
    lemma_relays_without_key(s.relays, named.public_key);
    let relays = s.mutated(FunderMutation::AddRelay(named)).relays;
    let sub = relays_without_key(s.relays, named.public_key);
    assert forall|i: int| 0 <= i < relays.len() - 1 implies #[trigger] relays[i].public_key != named.public_key by {
        assert(relays[i] == sub[i]);
    }
}

/// A friend mutation leaves the friend's keys alone.
pub proof fn lemma_friend_mutation_keeps_keys(f: FriendStateView, m: FriendMutation)
    ensures
        f.mutated(m).local_public_key == f.local_public_key,
        f.mutated(m).remote_public_key == f.remote_public_key,
{
}

/// Every accepted mutation keeps the funder invariant.
pub proof fn lemma_mutation_keeps_invariant(s: FunderStateView, m: FunderMutation)
    requires
        funder_invariant(s),
        s.accepts(m),
    ensures
        funder_invariant(s.mutated(m)),
{
    let t = s.mutated(m);
    match m {
        FunderMutation::AddRelay(named) => {
            lemma_relays_without_key(s.relays, named.public_key);
            let sub = relays_without_key(s.relays, named.public_key);
            assert forall|i: int, j: int| 0 <= i < j < t.relays.len() implies #[trigger] t.relays[i].public_key
                != #[trigger] t.relays[j].public_key by {
                assert(t.relays[i] == sub[i]);
                if j < t.relays.len() - 1 {
                    assert(t.relays[j] == sub[j]);
                }
            }
        },
        FunderMutation::RemoveRelay(pk) => {
            lemma_relays_without_key(s.relays, pk);
        },
        FunderMutation::FriendMutation(pk, fm) => {
            lemma_friend_mutation_keeps_keys(s.friends[pk], fm);
        },
        _ => {},
    }
}

/// A run of accepted mutations keeps the funder invariant.
pub proof fn lemma_mutations_keep_invariant(s: FunderStateView, ms: Seq<FunderMutation>)
    requires
        funder_invariant(s),
        accepts_in_order(s, ms),
    ensures
        funder_invariant(mutated_in_order(s, ms)),
    decreases ms.len(),
{
    if ms.len() > 0 {
        lemma_mutation_keeps_invariant(s, ms[0]);
        lemma_mutations_keep_invariant(s.mutated(ms[0]), ms.drop_first());
    }
}

/// Changing one friend leaves every other friend as it was.
pub proof fn lemma_friend_mutation_is_local(s: FunderStateView, pk: PublicKey, fm: FriendMutation, other: PublicKey)
    requires
        s.accepts(FunderMutation::FriendMutation(pk, fm)),
        other != pk,
    ensures
        s.mutated(FunderMutation::FriendMutation(pk, fm)).friends.contains_key(other) == s.friends.contains_key(other),
        s.friends.contains_key(other) ==> s.mutated(FunderMutation::FriendMutation(pk, fm)).friends[other]
            == s.friends[other],
{
}

/// Adding a friend that was not there and then removing it gives back the
/// state.
pub proof fn lemma_add_then_remove_friend(s: FunderStateView, add_friend: AddFriend)
    requires
        s.accepts(FunderMutation::AddFriend(add_friend)),
    ensures
        s.mutated(FunderMutation::AddFriend(add_friend)).mutated(
            FunderMutation::RemoveFriend(add_friend.friend_public_key),
        ) == s,
{
    let t = s.mutated(FunderMutation::AddFriend(add_friend)).mutated(
        FunderMutation::RemoveFriend(add_friend.friend_public_key),
    );
    assert(t.friends =~= s.friends);
}

/// Adding an invoice whose identifier was not in use and then removing it
/// gives back the state.
pub proof fn lemma_add_then_remove_invoice(
    s: FunderStateView,
    invoice_id: InvoiceId,
    currency: Currency,
    total_dest_payment: u128,
    dest_plain_lock: PlainLock,
)
    requires
        !s.open_invoices.contains_key(invoice_id),
    ensures
        s.mutated(FunderMutation::AddInvoice(invoice_id, currency, total_dest_payment, dest_plain_lock)).mutated(
            FunderMutation::RemoveInvoice(invoice_id),
        ) == s,
{
    let t = s.mutated(FunderMutation::AddInvoice(invoice_id, currency, total_dest_payment, dest_plain_lock)).mutated(
        FunderMutation::RemoveInvoice(invoice_id),
    );
    assert(t.open_invoices =~= s.open_invoices);
}

/// Adding a transaction whose identifier was not in use and then removing
/// it gives back the state.
pub proof fn lemma_add_then_remove_transaction(s: FunderStateView, request_id: Uid, payment_id: PaymentId)
    requires
        !s.open_transactions.contains_key(request_id),
    ensures
        s.mutated(FunderMutation::AddTransaction(request_id, payment_id)).mutated(
            FunderMutation::RemoveTransaction(request_id),
        ) == s,
{
    let t = s.mutated(FunderMutation::AddTransaction(request_id, payment_id)).mutated(
        FunderMutation::RemoveTransaction(request_id),
    );
    assert(t.open_transactions =~= s.open_transactions);
}

/// Recording a payment whose identifier was not in use and then removing
/// it gives back the state.
pub proof fn lemma_update_then_remove_payment(s: FunderStateView, payment_id: PaymentId, payment: Payment)
    requires
        !s.payments.contains_key(payment_id),
    ensures
        s.mutated(FunderMutation::UpdatePayment(payment_id, payment)).mutated(
            FunderMutation::RemovePayment(payment_id),
        ) == s,
{
    let t = s.mutated(FunderMutation::UpdatePayment(payment_id, payment)).mutated(
        FunderMutation::RemovePayment(payment_id),
    );
    assert(t.payments =~= s.payments);
}

/// Adding a relay whose key no relay had and then removing that key gives
/// back the relay list.
pub proof fn lemma_add_then_remove_relay(s: FunderStateView, named: NamedRelayAddress)
    requires
        forall|i: int| 0 <= i < s.relays.len() ==> #[trigger] s.relays[i].public_key != named.public_key,
    ensures
        s.mutated(FunderMutation::AddRelay(named)).mutated(FunderMutation::RemoveRelay(named.public_key)) == s,
{
    reveal(Seq::filter);
    let key = named.public_key;
    lemma_filter_keeps_all_without_key(s.relays, key);
    let t1 = s.mutated(FunderMutation::AddRelay(named));
    assert(t1.relays == s.relays.push(named));
    assert(t1.relays.drop_last() =~= s.relays);
    let t2 = t1.mutated(FunderMutation::RemoveRelay(key));
    assert(t2.relays == relays_without_key(s.relays, key));
    assert(t2.relays =~= s.relays);
}

/// Where no relay has a key, dropping the relays with that key changes
/// nothing.
pub proof fn lemma_filter_keeps_all_without_key(relays: Seq<NamedRelayAddress>, key: PublicKey)
    requires
        forall|i: int| 0 <= i < relays.len() ==> #[trigger] relays[i].public_key != key,
    ensures
        relays_without_key(relays, key) == relays,
    decreases relays.len(),
{
    reveal(Seq::filter);
    if relays.len() > 0 {
        let rest = relays.drop_last();
        assert forall|i: int| 0 <= i < rest.len() implies #[trigger] rest[i].public_key != key by {
            assert(rest[i] == relays[i]);
        }
        lemma_filter_keeps_all_without_key(rest, key);
        assert(relays.last().public_key != key);
        assert(rest.push(relays.last()) =~= relays);
    }
}

/// A transaction takes one response: once set, a second response for the
/// same request is refused.
pub proof fn lemma_response_set_once(s: FunderStateView, response: ResponseSendFundsOp, again: ResponseSendFundsOp)
    requires
        s.accepts(FunderMutation::SetTransactionResponse(response)),
        again.request_id == response.request_id,
    ensures
        !s.mutated(FunderMutation::SetTransactionResponse(response)).accepts(
            FunderMutation::SetTransactionResponse(again),
        ),
{
}

/// An invoice takes one source lock: once set, a second lock is refused.
pub proof fn lemma_src_lock_set_once(
    s: FunderStateView,
    invoice_id: InvoiceId,
    lock: crate::ids::HashedLock,
    again: crate::ids::HashedLock,
)
    requires
        s.accepts(FunderMutation::SetInvoiceSrcHashedLock(invoice_id, lock)),
    ensures
        !s.mutated(FunderMutation::SetInvoiceSrcHashedLock(invoice_id, lock)).accepts(
            FunderMutation::SetInvoiceSrcHashedLock(invoice_id, again),
        ),
{
}

/// The pending request queue is first in, first out: pushing then popping
/// is popping then pushing, except on an empty queue, where it gives back
/// the friend.
pub proof fn lemma_pending_requests_fifo(f: FriendStateView, r: RequestSendFunds)
    ensures
        f.pending_requests.len() == 0 ==> f.mutated(FriendMutation::PushBackPendingRequest(r)).mutated(
            FriendMutation::PopFrontPendingRequest,
        ) == f,
        f.pending_requests.len() > 0 ==> f.mutated(FriendMutation::PushBackPendingRequest(r)).mutated(
            FriendMutation::PopFrontPendingRequest,
        ) == f.mutated(FriendMutation::PopFrontPendingRequest).mutated(
            FriendMutation::PushBackPendingRequest(r),
        ),
{
    let pushed = f.pending_requests.push(r);
    if f.pending_requests.len() == 0 {
        assert(pushed.drop_first() =~= f.pending_requests);
    } else {
        assert(pushed.drop_first() =~= f.pending_requests.drop_first().push(r));
    }
}

/// A friend just added shares its positive balance, and nothing when the
/// balance is negative.
pub proof fn lemma_fresh_friend_shared_credits(
    local: PublicKey,
    remote: PublicKey,
    address: Vec<crate::messages::RelayAddress>,
    name: String,
    balance: i128,
)
    ensures
        FriendStateView::fresh(local, remote, address, name, balance).shared_credits() == (if balance < 0 {
            0
        } else {
            balance as u128
        }),
{
}

/// The loop stops exactly when it moves to its finished stage.
pub proof fn lemma_loop_stops_when_finished(stage: LoopStage, reports: bool, input: LoopInput)
    requires
        expects_input(stage, input),
    ensures
        (next_step(stage, reports, input).0 == LoopStage::Finished) <==> (next_step(stage, reports, input).1 is Fail
            || next_step(stage, reports, input).1 is Finish),
{
}

/// A finished loop takes no more input.
pub proof fn lemma_finished_loop_is_final(input: LoopInput)
    ensures
        !expects_input(LoopStage::Finished, input),
{
}

/// A handler that fails does not stop the loop: it waits for the next
/// event.
pub proof fn lemma_handler_failure_is_recoverable(reports: bool)
    ensures
        next_step(LoopStage::Handling, reports, LoopInput::HandlerFailed) == (
            LoopStage::AwaitingEvent,
            LoopAction::AwaitEvent,
        ),
{
}

/// A round in which every step succeeds goes back to waiting for an event.
pub proof fn lemma_successful_round(reports: bool, has_mutations: bool)
    ensures
        ({
            let s1 = next_step(LoopStage::AwaitingEvent, reports, LoopInput::EventArrived(EventKind::Incoming)).0;
            let s2 = next_step(s1, reports, LoopInput::HandlerSucceeded(has_mutations)).0;
            let s3 = if has_mutations { next_step(s2, reports, LoopInput::Persisted(true)).0 } else { s2 };
            let s4 = next_step(s3, reports, LoopInput::CommsSent(true)).0;
            let s5 = next_step(s4, reports, LoopInput::ControlsSent(true)).0;
            let s6 = if reports { next_step(s5, reports, LoopInput::EventReported).0 } else { s5 };
            &&& expects_input(LoopStage::AwaitingEvent, LoopInput::EventArrived(EventKind::Incoming))
            &&& expects_input(s1, LoopInput::HandlerSucceeded(has_mutations))
            &&& has_mutations ==> expects_input(s2, LoopInput::Persisted(true))
            &&& expects_input(s3, LoopInput::CommsSent(true))
            &&& expects_input(s4, LoopInput::ControlsSent(true))
            &&& reports ==> expects_input(s5, LoopInput::EventReported)
            &&& s6 == LoopStage::AwaitingEvent
        }),
{
}

/// An incoming transaction joins its invoice whatever the invoice's source
/// lock: the request is then among the invoice's transactions, every earlier
/// one stays, nothing else joins, and the rest of the invoice is unchanged.
pub proof fn lemma_incoming_transaction_joins_invoice(s: FunderStateView, invoice_id: InvoiceId, request_id: Uid)
    requires
        s.accepts(FunderMutation::AddIncomingTransaction(invoice_id, request_id)),
    ensures
        ({
            let t = s.mutated(FunderMutation::AddIncomingTransaction(invoice_id, request_id));
            let before = s.open_invoices[invoice_id];
            let after = t.open_invoices[invoice_id];
            &&& t.open_invoices.contains_key(invoice_id)
            &&& after.incoming_transactions.contains(request_id)
            &&& forall|x: Uid| before.incoming_transactions.contains(x) ==> #[trigger] after.incoming_transactions.contains(x)
            &&& forall|x: Uid| #[trigger] after.incoming_transactions.contains(x) ==> x == request_id
                || before.incoming_transactions.contains(x)
            &&& after.opt_src_hashed_lock == before.opt_src_hashed_lock
            &&& after.total_dest_payment == before.total_dest_payment
            &&& after.dest_plain_lock == before.dest_plain_lock
            &&& after.currency == before.currency
        }),
{
}

/// A change to an existing friend is refused only for a token channel
/// change on an inconsistent channel; the friend's status plays no part, so
/// settings such as the status or the name can always be changed.
pub proof fn lemma_friend_mutation_acceptance(s: FunderStateView, pk: PublicKey, fm: FriendMutation)
    requires
        s.friends.contains_key(pk),
    ensures
        s.accepts(FunderMutation::FriendMutation(pk, fm)) <==> !(fm is TcMutation && s.friends[pk].channel_status
            is Inconsistent),
        s.accepts(FunderMutation::FriendMutation(pk, FriendMutation::SetStatus(FriendStatus::Enabled))),
        s.accepts(FunderMutation::FriendMutation(pk, FriendMutation::SetStatus(FriendStatus::Disabled))),
        s.accepts(FunderMutation::FriendMutation(pk, FriendMutation::SetName(s.friends[pk].name))),
{
}

/// Popping a response takes exactly the front one off a queue that has
/// one: the queue is one shorter and keeps the rest in order. Pushing then
/// popping is popping then pushing.
pub proof fn lemma_pop_front_pending_response(f: FriendStateView, r: ResponseOp)
    requires
        f.pending_responses.len() > 0,
    ensures
        ({
            let q = f.mutated(FriendMutation::PopFrontPendingResponse).pending_responses;
            &&& q.len() == f.pending_responses.len() - 1
            &&& forall|i: int| 0 <= i < q.len() ==> #[trigger] q[i] == f.pending_responses[i + 1]
        }),
        f.mutated(FriendMutation::PushBackPendingResponse(r)).mutated(FriendMutation::PopFrontPendingResponse)
            == f.mutated(FriendMutation::PopFrontPendingResponse).mutated(FriendMutation::PushBackPendingResponse(r)),
{
    assert(f.pending_responses.push(r).drop_first() =~= f.pending_responses.drop_first().push(r));
}

/// Popping a request takes exactly the front one off a queue that has one:
/// the queue is one shorter and keeps the rest in order.
pub proof fn lemma_pop_front_pending_request(f: FriendStateView)
    requires
        f.pending_requests.len() > 0,
    ensures
        ({
            let q = f.mutated(FriendMutation::PopFrontPendingRequest).pending_requests;
            &&& q.len() == f.pending_requests.len() - 1
            &&& forall|i: int| 0 <= i < q.len() ==> #[trigger] q[i] == f.pending_requests[i + 1]
        }),
{
}

/// Popping a user request takes exactly the front one off a queue that has
/// one: the queue is one shorter and keeps the rest in order. Pushing then
/// popping is popping then pushing.
pub proof fn lemma_pop_front_pending_user_request(f: FriendStateView, r: RequestSendFunds)
    requires
        f.pending_user_requests.len() > 0,
    ensures
        ({
            let q = f.mutated(FriendMutation::PopFrontPendingUserRequest).pending_user_requests;
            &&& q.len() == f.pending_user_requests.len() - 1
            &&& forall|i: int| 0 <= i < q.len() ==> #[trigger] q[i] == f.pending_user_requests[i + 1]
        }),
        f.mutated(FriendMutation::PushBackPendingUserRequest(r)).mutated(FriendMutation::PopFrontPendingUserRequest)
            == f.mutated(FriendMutation::PopFrontPendingUserRequest).mutated(
            FriendMutation::PushBackPendingUserRequest(r),
        ),
{
    assert(f.pending_user_requests.push(r).drop_first() =~= f.pending_user_requests.drop_first().push(r));
}

/// The shared credits of a consistent channel are its local max debt plus
/// its balance, held to the range of `u128`.
pub proof fn lemma_shared_credits_value(f: FriendStateView)
    requires
        f.channel_status is Consistent,
    ensures
        ({
            let b = f.channel_status->Consistent_0.balance;
            let sum = b.local_max_debt + b.balance;
            &&& 0 <= sum <= u128::MAX ==> f.shared_credits() == sum
            &&& sum < 0 ==> f.shared_credits() == 0
            &&& sum > u128::MAX ==> f.shared_credits() == u128::MAX
        }),
{
}

/// The shared credits do not depend on the pending debts or on the remote
/// max debt: changing them leaves the shared credits as they were.
pub proof fn lemma_shared_credits_ignore_pending_and_remote(f: FriendStateView, d: u128)
    requires
        f.channel_status is Consistent,
    ensures
        f.mutated(FriendMutation::TcMutation(TcMutation::SetLocalPendingDebt(d))).shared_credits()
            == f.shared_credits(),
        f.mutated(FriendMutation::TcMutation(TcMutation::SetRemotePendingDebt(d))).shared_credits()
            == f.shared_credits(),
        f.mutated(FriendMutation::TcMutation(TcMutation::SetRemoteMaxDebt(d))).shared_credits()
            == f.shared_credits(),
{
}

/// Each action's reports are what the next stage waits for: after any
/// expected input, whatever can come back from the action taken is expected.
pub proof fn lemma_loop_expects_reports_of_its_action(stage: LoopStage, reports: bool, input: LoopInput, report: LoopInput)
    requires
        expects_input(stage, input),
        reports_action(next_step(stage, reports, input).1, report),
    ensures
        expects_input(next_step(stage, reports, input).0, report),
{
}

/// Every stage but the last waits for both outcomes of its action: success
/// and failure of the handler, of the database write and of each send.
pub proof fn lemma_stages_expect_both_outcomes(ok: bool, kind: EventKind)
    ensures
        expects_input(LoopStage::AwaitingEvent, LoopInput::EventArrived(kind)),
        expects_input(LoopStage::AwaitingEvent, LoopInput::EventsEnded),
        expects_input(LoopStage::Handling, LoopInput::HandlerSucceeded(ok)),
        expects_input(LoopStage::Handling, LoopInput::HandlerFailed),
        expects_input(LoopStage::Persisting, LoopInput::Persisted(ok)),
        expects_input(LoopStage::SendingComms, LoopInput::CommsSent(ok)),
        expects_input(LoopStage::SendingControls, LoopInput::ControlsSent(ok)),
        expects_input(LoopStage::ReportingEvent, LoopInput::EventReported),
{
}

/// Each mutation touches only its own part of the state: the local key
/// never changes; relays change only by relay mutations, friends only by
/// friend mutations, invoices only by invoice mutations, transactions only
/// by transaction mutations, payments only by payment mutations.
pub proof fn lemma_mutation_frame(s: FunderStateView, m: FunderMutation)
    ensures
        s.mutated(m).local_public_key == s.local_public_key,
        !(m is AddRelay || m is RemoveRelay) ==> s.mutated(m).relays == s.relays,
        !(m is FriendMutation || m is AddFriend || m is RemoveFriend) ==> s.mutated(m).friends == s.friends,
        !(m is AddInvoice || m is AddIncomingTransaction || m is SetInvoiceSrcHashedLock || m is RemoveInvoice)
            ==> s.mutated(m).open_invoices == s.open_invoices,
        !(m is AddTransaction || m is SetTransactionResponse || m is RemoveTransaction) ==> s.mutated(
            m,
        ).open_transactions == s.open_transactions,
        !(m is UpdatePayment || m is RemovePayment) ==> s.mutated(m).payments == s.payments,
{
}

/// What each keyed mutation leaves under its key, and that the other keys
/// keep their entries.
pub proof fn lemma_keyed_mutations(s: FunderStateView, m: FunderMutation, other_invoice: InvoiceId, other_request: Uid, other_payment: PaymentId, other_friend: PublicKey)
    requires
        s.accepts(m),
    ensures
        m matches FunderMutation::AddInvoice(id, cur, total, lock) ==> {
            let t = s.mutated(m);
            &&& t.open_invoices.contains_key(id)
            &&& t.open_invoices[id].currency == cur
            &&& t.open_invoices[id].total_dest_payment == total
            &&& t.open_invoices[id].dest_plain_lock == lock
            &&& t.open_invoices[id].opt_src_hashed_lock is None
            &&& t.open_invoices[id].incoming_transactions.is_empty()
        },
        m matches FunderMutation::SetInvoiceSrcHashedLock(id, lock) ==> {
            let t = s.mutated(m);
            &&& t.open_invoices.contains_key(id)
            &&& t.open_invoices[id].opt_src_hashed_lock == Some(lock)
            &&& t.open_invoices[id].incoming_transactions == s.open_invoices[id].incoming_transactions
            &&& t.open_invoices[id].total_dest_payment == s.open_invoices[id].total_dest_payment
        },
        m matches FunderMutation::RemoveInvoice(id) ==> !s.mutated(m).open_invoices.contains_key(id),
        m matches FunderMutation::AddTransaction(rid, pid) ==> {
            let t = s.mutated(m);
            &&& t.open_transactions.contains_key(rid)
            &&& t.open_transactions[rid].payment_id == pid
            &&& t.open_transactions[rid].opt_response is None
        },
        m matches FunderMutation::SetTransactionResponse(resp) ==> {
            let t = s.mutated(m);
            &&& t.open_transactions.contains_key(resp.request_id)
            &&& t.open_transactions[resp.request_id].opt_response == Some(resp)
            &&& t.open_transactions[resp.request_id].payment_id == s.open_transactions[resp.request_id].payment_id
        },
        m matches FunderMutation::RemoveTransaction(rid) ==> !s.mutated(m).open_transactions.contains_key(rid),
        m matches FunderMutation::UpdatePayment(pid, payment) ==> {
            let t = s.mutated(m);
            t.payments.contains_key(pid) && t.payments[pid] == payment
        },
        m matches FunderMutation::RemovePayment(pid) ==> !s.mutated(m).payments.contains_key(pid),
        m matches FunderMutation::RemoveFriend(pk) ==> !s.mutated(m).friends.contains_key(pk),
        m matches FunderMutation::AddFriend(af) ==> s.mutated(m).friends.contains_key(af.friend_public_key),
        m matches FunderMutation::FriendMutation(pk, _) ==> s.mutated(m).friends.contains_key(pk),
        // entries under other keys stay as they were
        (m matches FunderMutation::AddInvoice(id, _, _, _) && id != other_invoice)
            || (m matches FunderMutation::AddIncomingTransaction(id, _) && id != other_invoice)
            || (m matches FunderMutation::SetInvoiceSrcHashedLock(id, _) && id != other_invoice)
            || (m matches FunderMutation::RemoveInvoice(id) && id != other_invoice) ==> {
            &&& s.mutated(m).open_invoices.contains_key(other_invoice) == s.open_invoices.contains_key(other_invoice)
            &&& s.open_invoices.contains_key(other_invoice) ==> s.mutated(m).open_invoices[other_invoice]
                == s.open_invoices[other_invoice]
        },
        (m matches FunderMutation::AddTransaction(rid, _) && rid != other_request)
            || (m matches FunderMutation::SetTransactionResponse(resp) && resp.request_id != other_request)
            || (m matches FunderMutation::RemoveTransaction(rid) && rid != other_request) ==> {
            &&& s.mutated(m).open_transactions.contains_key(other_request) == s.open_transactions.contains_key(other_request)
            &&& s.open_transactions.contains_key(other_request) ==> s.mutated(m).open_transactions[other_request]
                == s.open_transactions[other_request]
        },
        (m matches FunderMutation::UpdatePayment(pid, _) && pid != other_payment)
            || (m matches FunderMutation::RemovePayment(pid) && pid != other_payment) ==> {
            &&& s.mutated(m).payments.contains_key(other_payment) == s.payments.contains_key(other_payment)
            &&& s.payments.contains_key(other_payment) ==> s.mutated(m).payments[other_payment]
                == s.payments[other_payment]
        },
        (m matches FunderMutation::AddFriend(af) && af.friend_public_key != other_friend)
            || (m matches FunderMutation::RemoveFriend(pk) && pk != other_friend) ==> {
            &&& s.mutated(m).friends.contains_key(other_friend) == s.friends.contains_key(other_friend)
            &&& s.friends.contains_key(other_friend) ==> s.mutated(m).friends[other_friend] == s.friends[other_friend]
        },
{
}

/// A friend just added: its channel is consistent with the given balance,
/// no debts and no move token received; nothing was sent, nothing is wanted
/// or pending, and it is disabled.
pub proof fn lemma_fresh_friend(
    local: PublicKey,
    remote: PublicKey,
    address: Vec<crate::messages::RelayAddress>,
    name: String,
    balance: i128,
)
    ensures
        ({
            let f = FriendStateView::fresh(local, remote, address, name, balance);
            &&& f.local_public_key == local
            &&& f.remote_public_key == remote
            &&& f.remote_address == address
            &&& f.name == name
            &&& f.status == FriendStatus::Disabled
            &&& f.sent_local_address == crate::friend::SentLocalAddress::NeverSent
            &&& f.wanted_remote_max_debt == 0
            &&& f.wanted_local_requests_status == crate::messages::RequestsStatus::Closed
            &&& f.pending_requests.len() == 0
            &&& f.pending_responses.len() == 0
            &&& f.pending_user_requests.len() == 0
            &&& f.channel_status matches ChannelStatus::Consistent(tc) && {
                &&& tc.local_public_key == local
                &&& tc.remote_public_key == remote
                &&& tc.balance.balance == balance
                &&& tc.balance.local_max_debt == 0
                &&& tc.balance.remote_max_debt == 0
                &&& tc.balance.local_pending_debt == 0
                &&& tc.balance.remote_pending_debt == 0
                &&& tc.opt_last_incoming_move_token is None
            }
        }),
{
}

/// A friend mutation changes only what it names: pushes add one element at
/// the back and keep the rest, setters set their field, and every other part
/// of the friend stays.
pub proof fn lemma_friend_mutation_effects(f: FriendStateView, m: FriendMutation)
    ensures
        m matches FriendMutation::PushBackPendingRequest(r) ==> {
            let q = f.mutated(m).pending_requests;
            q.len() == f.pending_requests.len() + 1 && q.last() == r && q.drop_last() == f.pending_requests
        },
        m matches FriendMutation::PushBackPendingResponse(r) ==> {
            let q = f.mutated(m).pending_responses;
            q.len() == f.pending_responses.len() + 1 && q.last() == r && q.drop_last() == f.pending_responses
        },
        m matches FriendMutation::PushBackPendingUserRequest(r) ==> {
            let q = f.mutated(m).pending_user_requests;
            q.len() == f.pending_user_requests.len() + 1 && q.last() == r && q.drop_last() == f.pending_user_requests
        },
        (m is PopFrontPendingRequest || m is PopFrontPendingResponse || m is PopFrontPendingUserRequest) ==> {
            let g = f.mutated(m);
            &&& (m is PopFrontPendingRequest && f.pending_requests.len() > 0) ==> g.pending_requests.len()
                == f.pending_requests.len() - 1
            &&& (m is PopFrontPendingResponse && f.pending_responses.len() > 0) ==> g.pending_responses.len()
                == f.pending_responses.len() - 1
            &&& (m is PopFrontPendingUserRequest && f.pending_user_requests.len() > 0) ==> g.pending_user_requests.len()
                == f.pending_user_requests.len() - 1
            &&& f.pending_requests.len() == 0 ==> g.pending_requests == f.pending_requests
            &&& f.pending_responses.len() == 0 ==> g.pending_responses == f.pending_responses
            &&& f.pending_user_requests.len() == 0 ==> g.pending_user_requests == f.pending_user_requests
        },
        !(m is PushBackPendingRequest || m is PopFrontPendingRequest) ==> f.mutated(m).pending_requests
            == f.pending_requests,
        !(m is PushBackPendingResponse || m is PopFrontPendingResponse) ==> f.mutated(m).pending_responses
            == f.pending_responses,
        !(m is PushBackPendingUserRequest || m is PopFrontPendingUserRequest) ==> f.mutated(m).pending_user_requests
            == f.pending_user_requests,
        m matches FriendMutation::SetName(n) ==> f.mutated(m).name == n,
        !(m is SetName) ==> f.mutated(m).name == f.name,
        m matches FriendMutation::SetStatus(st) ==> f.mutated(m).status == st,
        !(m is SetStatus) ==> f.mutated(m).status == f.status,
        m matches FriendMutation::SetRemoteAddress(a) ==> f.mutated(m).remote_address == a,
        !(m is SetRemoteAddress) ==> f.mutated(m).remote_address == f.remote_address,
        m matches FriendMutation::SetSentLocalAddress(a) ==> f.mutated(m).sent_local_address == a,
        !(m is SetSentLocalAddress) ==> f.mutated(m).sent_local_address == f.sent_local_address,
        m matches FriendMutation::SetWantedRemoteMaxDebt(d) ==> f.mutated(m).wanted_remote_max_debt == d,
        !(m is SetWantedRemoteMaxDebt) ==> f.mutated(m).wanted_remote_max_debt == f.wanted_remote_max_debt,
        m matches FriendMutation::SetWantedLocalRequestsStatus(st) ==> f.mutated(m).wanted_local_requests_status
            == st,
        !(m is SetWantedLocalRequestsStatus) ==> f.mutated(m).wanted_local_requests_status
            == f.wanted_local_requests_status,
        m matches FriendMutation::SetInconsistent(c) ==> f.mutated(m).channel_status == ChannelStatus::Inconsistent(c)
            && f.mutated(m).channel_status.last_incoming_move_token() == c.opt_last_incoming_move_token,
        m matches FriendMutation::SetConsistent(tc) ==> f.mutated(m).channel_status == ChannelStatus::Consistent(tc)
            && f.mutated(m).channel_status.last_incoming_move_token() == tc.opt_last_incoming_move_token,
        !(m is TcMutation || m is SetInconsistent || m is SetConsistent) ==> f.mutated(m).channel_status
            == f.channel_status,
{
}

/// A token channel change sets the one field it names and keeps the rest.
pub proof fn lemma_token_channel_mutation(tc: crate::token_channel::TokenChannel, m: TcMutation)
    ensures
        m matches TcMutation::SetBalance(b) ==> tc.mutated(m).balance.balance == b,
        !(m is SetBalance) ==> tc.mutated(m).balance.balance == tc.balance.balance,
        m matches TcMutation::SetLocalMaxDebt(d) ==> tc.mutated(m).balance.local_max_debt == d,
        !(m is SetLocalMaxDebt) ==> tc.mutated(m).balance.local_max_debt == tc.balance.local_max_debt,
        m matches TcMutation::SetRemoteMaxDebt(d) ==> tc.mutated(m).balance.remote_max_debt == d,
        !(m is SetRemoteMaxDebt) ==> tc.mutated(m).balance.remote_max_debt == tc.balance.remote_max_debt,
        m matches TcMutation::SetLocalPendingDebt(d) ==> tc.mutated(m).balance.local_pending_debt == d,
        !(m is SetLocalPendingDebt) ==> tc.mutated(m).balance.local_pending_debt == tc.balance.local_pending_debt,
        m matches TcMutation::SetRemotePendingDebt(d) ==> tc.mutated(m).balance.remote_pending_debt == d,
        !(m is SetRemotePendingDebt) ==> tc.mutated(m).balance.remote_pending_debt == tc.balance.remote_pending_debt,
        m matches TcMutation::SetIncomingMoveToken(t) ==> tc.mutated(m).opt_last_incoming_move_token == Some(t),
        !(m is SetIncomingMoveToken) ==> tc.mutated(m).opt_last_incoming_move_token == tc.opt_last_incoming_move_token,
        tc.mutated(m).local_public_key == tc.local_public_key,
        tc.mutated(m).remote_public_key == tc.remote_public_key,
{
}

/// Dropping names keeps each relay's key and address, in order.
pub proof fn lemma_anonymized_keeps_keys_and_addresses(named: Seq<NamedRelayAddress>)
    ensures
        crate::messages::anonymized(named).len() == named.len(),
        forall|i: int| 0 <= i < named.len() ==> (#[trigger] crate::messages::anonymized(named)[i]).public_key
            == named[i].public_key && crate::messages::anonymized(named)[i].address == named[i].address,
{
}

/// Each failure ends the loop with its own error: a closed control stream,
/// a closed comm stream, a failed database write, and a failed send to
/// friends or to the user; the end of the events ends it without error.
pub proof fn lemma_loop_failures(reports: bool)
    ensures
        next_step(LoopStage::AwaitingEvent, reports, LoopInput::EventArrived(EventKind::IncomingControlClosed)).1
            == LoopAction::Fail(crate::funder::FunderError::IncomingControlClosed),
        next_step(LoopStage::AwaitingEvent, reports, LoopInput::EventArrived(EventKind::IncomingCommClosed)).1
            == LoopAction::Fail(crate::funder::FunderError::IncomingCommClosed),
        next_step(LoopStage::AwaitingEvent, reports, LoopInput::EventsEnded).1 == LoopAction::Finish,
        next_step(LoopStage::Persisting, reports, LoopInput::Persisted(false)).1 == LoopAction::Fail(
            crate::funder::FunderError::DbError,
        ),
        next_step(LoopStage::SendingComms, reports, LoopInput::CommsSent(false)).1 == LoopAction::Fail(
            crate::funder::FunderError::SendCommError,
        ),
        next_step(LoopStage::SendingControls, reports, LoopInput::ControlsSent(false)).1 == LoopAction::Fail(
            crate::funder::FunderError::SendControlError,
        ),
        next_step(LoopStage::Handling, reports, LoopInput::HandlerSucceeded(true)).1 == LoopAction::PersistMutations,
        next_step(LoopStage::Handling, reports, LoopInput::HandlerSucceeded(false)).1 == LoopAction::SendComms,
        next_step(LoopStage::SendingControls, reports, LoopInput::ControlsSent(true)).1 == (if reports {
            LoopAction::ReportEvent
        } else {
            LoopAction::AwaitEvent
        }),
{
}

/// A run of no mutations changes nothing; a run of one is that mutation;
/// a run with one more mutation at its end is the run followed by it.
pub proof fn lemma_mutations_in_order(s: FunderStateView, ms: Seq<FunderMutation>, m: FunderMutation)
    ensures
        mutated_in_order(s, Seq::<FunderMutation>::empty()) == s,
        accepts_in_order(s, Seq::<FunderMutation>::empty()),
        mutated_in_order(s, seq![m]) == s.mutated(m),
        accepts_in_order(s, seq![m]) == s.accepts(m),
        accepts_in_order(s, ms) ==> mutated_in_order(s, ms.push(m)) == mutated_in_order(s, ms).mutated(m)
            && accepts_in_order(s, ms.push(m)) == mutated_in_order(s, ms).accepts(m),
    decreases ms.len(),
{
    assert(seq![m].drop_first() =~= Seq::<FunderMutation>::empty());
    assert(seq![m][0] == m);
    assert(mutated_in_order(s.mutated(m), Seq::<FunderMutation>::empty()) == s.mutated(m));
    assert(accepts_in_order(s.mutated(m), Seq::<FunderMutation>::empty()));
    if ms.len() > 0 && accepts_in_order(s, ms) {
        lemma_mutations_in_order(s.mutated(ms[0]), ms.drop_first(), m);
        assert(ms.push(m).drop_first() =~= ms.drop_first().push(m));
        assert(ms.push(m)[0] == ms[0]);
    } else if ms.len() == 0 {
        assert(ms.push(m) =~= seq![m]);
    }
}

} // verus!

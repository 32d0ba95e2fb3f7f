use offst_funder::friend::FriendMutation;
use offst_funder::ids::{HashedLock, InvoiceId, PaymentId, PlainLock, PublicKey, RandValue, Signature, Uid};
use offst_funder::messages::{AddFriend, Currency, NamedRelayAddress, NetAddress, ResponseSendFundsOp};
use offst_funder::state::{FunderMutation, FunderState, OpenInvoice, Payment, PaymentStage};

fn pk(b: u8) -> PublicKey {
    PublicKey([b; 32])
}

fn named(key: u8, name: &str) -> NamedRelayAddress {
    NamedRelayAddress {
        public_key: pk(key),
        address: NetAddress(format!("relay{}", key)),
        name: name.to_string(),
    }
}

fn relay_names(state: &FunderState) -> Vec<String> {
    state.relays.iter().map(|r| r.name.clone()).collect()
}

fn add_friend(key: u8, balance: i128) -> FunderMutation {
    FunderMutation::AddFriend(AddFriend {
        friend_public_key: pk(key),
        relays: vec![],
        name: format!("friend{}", key),
        balance,
    })
}

fn response(request: u8) -> ResponseSendFundsOp {
    ResponseSendFundsOp {
        request_id: Uid([request; 16]),
        src_hashed_lock: HashedLock([1; 32]),
        dest_plain_lock: PlainLock([2; 32]),
        is_complete: true,
        rand_nonce: RandValue([3; 16]),
        signature: Signature([4; 64]),
    }
}

#[test]
fn new_funder_state_holds_relays_in_order() {
    let state = FunderState::new(pk(0), vec![named(1, "a"), named(2, "b")]);
    assert_eq!(state.local_public_key, pk(0));
    assert_eq!(relay_names(&state), vec!["a".to_string(), "b".to_string()]);
    assert!(!state.friends.contains_key(&pk(1)));
    assert!(!state.open_invoices.contains_key(&InvoiceId([0; 32])));
    assert!(!state.open_transactions.contains_key(&Uid([0; 16])));
    assert!(!state.payments.contains_key(&PaymentId([0; 16])));
}

#[test]
fn add_relay_replaces_relay_with_same_key() {
    let mut state = FunderState::new(pk(0), vec![named(1, "a"), named(2, "b"), named(3, "c")]);
    state.mutate(FunderMutation::AddRelay(named(2, "b2")));
    assert_eq!(relay_names(&state), vec!["a".to_string(), "c".to_string(), "b2".to_string()]);
    state.mutate(FunderMutation::AddRelay(named(4, "d")));
    assert_eq!(relay_names(&state), vec!["a".to_string(), "c".to_string(), "b2".to_string(), "d".to_string()]);
}

#[test]
fn remove_relay_drops_every_relay_with_key() {
    let mut state = FunderState::new(pk(0), vec![named(1, "a"), named(2, "b"), named(1, "a2")]);
    state.mutate(FunderMutation::RemoveRelay(pk(1)));
    assert_eq!(relay_names(&state), vec!["b".to_string()]);
    state.mutate(FunderMutation::RemoveRelay(pk(9)));
    assert_eq!(relay_names(&state), vec!["b".to_string()]);
}

#[test]
fn add_then_remove_relay_restores_relays() {
    let mut state = FunderState::new(pk(0), vec![named(1, "a")]);
    state.mutate(FunderMutation::AddRelay(named(5, "e")));
    state.mutate(FunderMutation::RemoveRelay(pk(5)));
    assert_eq!(relay_names(&state), vec!["a".to_string()]);
}

#[test]
fn add_friend_creates_fresh_friend() {
    let mut state = FunderState::new(pk(0), vec![]);
    assert!(state.can_apply(&add_friend(7, 10)));
    state.mutate(add_friend(7, 10));
    let friend = state.friends.get(&pk(7)).unwrap();
    assert_eq!(friend.local_public_key, pk(0));
    assert_eq!(friend.remote_public_key, pk(7));
    assert_eq!(friend.name, "friend7");
    assert_eq!(friend.get_shared_credits(), 10);
    // a friend cannot be added twice
    assert!(!state.can_apply(&add_friend(7, 3)));
}

#[test]
fn friend_mutation_reaches_only_that_friend() {
    let mut state = FunderState::new(pk(0), vec![]);
    state.mutate(add_friend(7, 0));
    state.mutate(add_friend(8, 0));
    state.mutate(FunderMutation::FriendMutation(pk(7), FriendMutation::SetName("seven".to_string())));
    assert_eq!(state.friends.get(&pk(7)).unwrap().name, "seven");
    assert_eq!(state.friends.get(&pk(8)).unwrap().name, "friend8");
    // a mutation of a friend that does not exist is refused
    assert!(!state.can_apply(&FunderMutation::FriendMutation(pk(9), FriendMutation::PopFrontPendingRequest)));
}

#[test]
fn add_then_remove_friend() {
    let mut state = FunderState::new(pk(0), vec![]);
    state.mutate(add_friend(7, 0));
    state.mutate(FunderMutation::RemoveFriend(pk(7)));
    assert!(!state.friends.contains_key(&pk(7)));
    assert!(state.can_apply(&add_friend(7, 0)));
}

#[test]
fn invoices_take_transactions_and_one_source_lock() {
    let mut state = FunderState::new(pk(0), vec![]);
    let invoice_id = InvoiceId([5; 32]);
    let add_tx = FunderMutation::AddIncomingTransaction(invoice_id, Uid([1; 16]));
    assert!(!state.can_apply(&add_tx));
    state.mutate(FunderMutation::AddInvoice(invoice_id, Currency { name: "FST".to_string() }, 100, PlainLock([6; 32])));
    assert!(state.can_apply(&add_tx));
    state.mutate(add_tx);
    state.mutate(FunderMutation::AddIncomingTransaction(invoice_id, Uid([2; 16])));
    {
        let invoice: &OpenInvoice = state.open_invoices.get(&invoice_id).unwrap();
        assert_eq!(invoice.total_dest_payment, 100);
        assert_eq!(invoice.currency, Currency { name: "FST".to_string() });
        assert_eq!(invoice.incoming_transactions.len(), 2);
        assert!(invoice.incoming_transactions.contains(&Uid([1; 16])));
        assert_eq!(invoice.opt_src_hashed_lock, None);
    }
    let set_lock = FunderMutation::SetInvoiceSrcHashedLock(invoice_id, HashedLock([7; 32]));
    assert!(state.can_apply(&set_lock));
    state.mutate(set_lock);
    assert_eq!(state.open_invoices.get(&invoice_id).unwrap().opt_src_hashed_lock, Some(HashedLock([7; 32])));
    assert!(!state.can_apply(&FunderMutation::SetInvoiceSrcHashedLock(invoice_id, HashedLock([8; 32]))));
    state.mutate(FunderMutation::RemoveInvoice(invoice_id));
    assert!(!state.open_invoices.contains_key(&invoice_id));
}

#[test]
fn transactions_take_one_response() {
    let mut state = FunderState::new(pk(0), vec![]);
    let request_id = Uid([3; 16]);
    assert!(!state.can_apply(&FunderMutation::SetTransactionResponse(response(3))));
    state.mutate(FunderMutation::AddTransaction(request_id, PaymentId([9; 16])));
    assert_eq!(state.open_transactions.get(&request_id).unwrap().opt_response, None);
    assert!(state.can_apply(&FunderMutation::SetTransactionResponse(response(3))));
    state.mutate(FunderMutation::SetTransactionResponse(response(3)));
    let tx = state.open_transactions.get(&request_id).unwrap();
    assert_eq!(tx.payment_id, PaymentId([9; 16]));
    assert_eq!(tx.opt_response, Some(response(3)));
    assert!(!state.can_apply(&FunderMutation::SetTransactionResponse(response(3))));
    state.mutate(FunderMutation::RemoveTransaction(request_id));
    assert!(!state.open_transactions.contains_key(&request_id));
}

#[test]
fn payments_are_updated_and_removed() {
    let mut state = FunderState::new(pk(0), vec![]);
    let payment_id = PaymentId([4; 16]);
    let payment = Payment { src_plain_lock: PlainLock([1; 32]), stage: PaymentStage::InProgress(2) };
    state.mutate(FunderMutation::UpdatePayment(payment_id, payment.clone()));
    assert_eq!(state.payments.get(&payment_id), Some(&payment));
    let payment2 = Payment { src_plain_lock: PlainLock([1; 32]), stage: PaymentStage::AfterSuccessAck(2) };
    state.mutate(FunderMutation::UpdatePayment(payment_id, payment2.clone()));
    assert_eq!(state.payments.get(&payment_id), Some(&payment2));
    state.mutate(FunderMutation::RemovePayment(payment_id));
    assert_eq!(state.payments.get(&payment_id), None);
}

#[test]
fn apply_mutations_applies_all_accepted() {
    let mut state = FunderState::new(pk(0), vec![]);
    let r = state.apply_mutations(vec![add_friend(1, 0), add_friend(2, 0), FunderMutation::AddRelay(named(3, "c"))]);
    assert_eq!(r, None);
    assert!(state.friends.contains_key(&pk(1)));
    assert!(state.friends.contains_key(&pk(2)));
    assert_eq!(relay_names(&state), vec!["c".to_string()]);
}

#[test]
fn apply_mutations_stops_at_first_refused() {
    let mut state = FunderState::new(pk(0), vec![]);
    let r = state.apply_mutations(vec![
        add_friend(1, 0),
        add_friend(1, 5),
        add_friend(2, 0),
    ]);
    assert_eq!(r, Some(1));
    assert!(state.friends.contains_key(&pk(1)));
    assert!(!state.friends.contains_key(&pk(2)));
}

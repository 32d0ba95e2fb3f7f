use offst_funder::friend::{
    saturating_add_signed, ChannelInconsistent, ChannelStatus, FriendMutation, FriendState,
    ResponseOp, SentLocalAddress,
};
use offst_funder::ids::{HashResult, InvoiceId, PublicKey, RandValue, Signature, Uid};
use offst_funder::messages::{
    FriendStatus, FriendsRoute, MoveTokenHashed, NamedRelayAddress, NetAddress, RelayAddress,
    RequestSendFunds, RequestsStatus, ResetTerms, ResponseSendFunds,
};
use offst_funder::token_channel::{TcMutation, TokenChannel};

fn pk(b: u8) -> PublicKey {
    PublicKey([b; 32])
}

fn request(b: u8) -> RequestSendFunds {
    RequestSendFunds {
        request_id: Uid([b; 16]),
        route: FriendsRoute { public_keys: vec![pk(1), pk(2)] },
        dest_payment: b as u128,
        invoice_id: InvoiceId([b; 32]),
    }
}

fn move_token(b: u8) -> MoveTokenHashed {
    MoveTokenHashed {
        prefix_hash: HashResult([b; 32]),
        local_public_key: pk(1),
        remote_public_key: pk(2),
        inconsistency_counter: 0,
        move_token_counter: b as u128,
        balance: 0,
        local_pending_debt: 0,
        remote_pending_debt: 0,
        rand_nonce: RandValue([b; 16]),
        new_token: Signature([b; 64]),
    }
}

fn named(key: u8, addr: &str, name: &str) -> NamedRelayAddress {
    NamedRelayAddress {
        public_key: pk(key),
        address: NetAddress(addr.to_string()),
        name: name.to_string(),
    }
}

fn new_friend(balance: i128) -> FriendState {
    FriendState::new(
        &pk(1),
        &pk(2),
        vec![RelayAddress { public_key: pk(3), address: NetAddress("relay".to_string()) }],
        "bob".to_string(),
        balance,
    )
}

#[test]
fn new_friend_starts_consistent_and_empty() {
    let f = new_friend(7);
    assert_eq!(f.local_public_key, pk(1));
    assert_eq!(f.remote_public_key, pk(2));
    assert_eq!(f.name, "bob");
    assert_eq!(f.status, FriendStatus::Disabled);
    assert_eq!(f.wanted_remote_max_debt, 0);
    assert_eq!(f.wanted_local_requests_status, RequestsStatus::Closed);
    assert_eq!(f.sent_local_address, SentLocalAddress::NeverSent);
    assert!(f.pending_requests.is_empty());
    assert!(f.pending_responses.is_empty());
    assert!(f.pending_user_requests.is_empty());
    match f.channel_status {
        ChannelStatus::Consistent(tc) => {
            assert_eq!(tc.balance.balance, 7);
            assert_eq!(tc.balance.local_max_debt, 0);
            assert_eq!(tc.opt_last_incoming_move_token, None);
        }
        ChannelStatus::Inconsistent(_) => panic!("a new friend has a consistent channel"),
    }
}

#[test]
fn shared_credits_of_fresh_friend() {
    assert_eq!(new_friend(25).get_shared_credits(), 25);
    assert_eq!(new_friend(-25).get_shared_credits(), 0);
}

#[test]
fn shared_credits_add_max_debt_and_balance() {
    let mut f = new_friend(-30);
    f.mutate(FriendMutation::TcMutation(TcMutation::SetLocalMaxDebt(100)));
    assert_eq!(f.get_shared_credits(), 70);
    f.mutate(FriendMutation::TcMutation(TcMutation::SetBalance(40)));
    assert_eq!(f.get_shared_credits(), 140);
}

#[test]
fn shared_credits_saturate() {
    let mut f = new_friend(i128::MAX);
    f.mutate(FriendMutation::TcMutation(TcMutation::SetLocalMaxDebt(u128::MAX)));
    assert_eq!(f.get_shared_credits(), u128::MAX);
    assert_eq!(saturating_add_signed(5, i128::MIN), 0);
    assert_eq!(saturating_add_signed(u128::MAX, -1), u128::MAX - 1);
    assert_eq!(saturating_add_signed(10, -3), 7);
}

#[test]
fn shared_credits_are_zero_when_inconsistent() {
    let mut f = new_friend(50);
    let reset_terms = ResetTerms { reset_token: Signature([9; 64]), inconsistency_counter: 1, balance_for_reset: 5 };
    f.mutate(FriendMutation::SetInconsistent(ChannelInconsistent {
        opt_last_incoming_move_token: Some(move_token(4)),
        local_reset_terms: reset_terms,
        opt_remote_reset_terms: None,
    }));
    assert_eq!(f.get_shared_credits(), 0);
    assert_eq!(f.channel_status.get_last_incoming_move_token_hashed(), Some(move_token(4)));
}

#[test]
fn last_incoming_move_token_of_consistent_channel() {
    let mut f = new_friend(0);
    assert_eq!(f.channel_status.get_last_incoming_move_token_hashed(), None);
    f.mutate(FriendMutation::TcMutation(TcMutation::SetIncomingMoveToken(move_token(8))));
    assert_eq!(f.channel_status.get_last_incoming_move_token_hashed(), Some(move_token(8)));
}

#[test]
fn token_channel_mutation_needs_consistent_channel() {
    let mut f = new_friend(0);
    let m = FriendMutation::TcMutation(TcMutation::SetBalance(3));
    assert!(f.accepts(&m));
    let reset_terms = ResetTerms { reset_token: Signature([9; 64]), inconsistency_counter: 1, balance_for_reset: 5 };
    f.mutate(FriendMutation::SetInconsistent(ChannelInconsistent {
        opt_last_incoming_move_token: None,
        local_reset_terms: reset_terms,
        opt_remote_reset_terms: None,
    }));
    assert!(!f.accepts(&m));
    assert!(f.accepts(&FriendMutation::SetName("x".to_string())));
    f.mutate(FriendMutation::SetConsistent(TokenChannel::new(&pk(1), &pk(2), 11)));
    assert!(f.accepts(&m));
    assert_eq!(f.get_shared_credits(), 11);
}

#[test]
fn pending_requests_are_first_in_first_out() {
    let mut f = new_friend(0);
    f.mutate(FriendMutation::PushBackPendingRequest(request(1)));
    f.mutate(FriendMutation::PushBackPendingRequest(request(2)));
    f.mutate(FriendMutation::PopFrontPendingRequest);
    assert_eq!(f.pending_requests.len(), 1);
    assert_eq!(f.pending_requests.get(0), Some(&request(2)));
    f.mutate(FriendMutation::PopFrontPendingRequest);
    assert!(f.pending_requests.is_empty());
    // popping an empty queue leaves it empty
    f.mutate(FriendMutation::PopFrontPendingRequest);
    assert!(f.pending_requests.is_empty());
}

#[test]
fn push_then_pop_on_empty_queue_gives_back_empty_queue() {
    let mut f = new_friend(0);
    f.mutate(FriendMutation::PushBackPendingUserRequest(request(5)));
    f.mutate(FriendMutation::PopFrontPendingUserRequest);
    assert!(f.pending_user_requests.is_empty());
    assert!(f.pending_requests.is_empty());
}

#[test]
fn pending_responses_queue() {
    let mut f = new_friend(0);
    let response = ResponseOp::Response(ResponseSendFunds {
        request_id: Uid([1; 16]),
        rand_nonce: RandValue([2; 16]),
        signature: Signature([3; 64]),
    });
    f.mutate(FriendMutation::PushBackPendingResponse(response.clone()));
    assert_eq!(f.pending_responses.len(), 1);
    assert_eq!(f.pending_responses.get(0), Some(&response));
    f.mutate(FriendMutation::PopFrontPendingResponse);
    assert!(f.pending_responses.is_empty());
}

#[test]
fn setters_change_one_field() {
    let mut f = new_friend(0);
    f.mutate(FriendMutation::SetStatus(FriendStatus::Enabled));
    f.mutate(FriendMutation::SetName("carol".to_string()));
    f.mutate(FriendMutation::SetWantedRemoteMaxDebt(500));
    f.mutate(FriendMutation::SetWantedLocalRequestsStatus(RequestsStatus::Open));
    f.mutate(FriendMutation::SetRemoteAddress(vec![]));
    f.mutate(FriendMutation::SetSentLocalAddress(SentLocalAddress::LastSent(vec![named(4, "a", "n")])));
    assert_eq!(f.status, FriendStatus::Enabled);
    assert_eq!(f.name, "carol");
    assert_eq!(f.wanted_remote_max_debt, 500);
    assert_eq!(f.wanted_local_requests_status, RequestsStatus::Open);
    assert!(f.remote_address.is_empty());
    assert_eq!(f.sent_local_address, SentLocalAddress::LastSent(vec![named(4, "a", "n")]));
    assert_eq!(f.remote_public_key, pk(2));
}

#[test]
fn sent_local_address_to_vec() {
    assert!(SentLocalAddress::NeverSent.to_vec().is_empty());
    let last = vec![named(4, "a", "first"), named(5, "b", "second")];
    let prev = vec![named(6, "c", "third")];
    let v = SentLocalAddress::LastSent(last.clone()).to_vec();
    assert_eq!(
        v,
        vec![vec![
            RelayAddress { public_key: pk(4), address: NetAddress("a".to_string()) },
            RelayAddress { public_key: pk(5), address: NetAddress("b".to_string()) },
        ]]
    );
    let v = SentLocalAddress::Transition(last, prev).to_vec();
    assert_eq!(v.len(), 2);
    assert_eq!(v[1], vec![RelayAddress { public_key: pk(6), address: NetAddress("c".to_string()) }]);
    assert_eq!(v[0][1].address, NetAddress("b".to_string()));
}

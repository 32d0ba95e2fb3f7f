//! The state of one friend: channel, addresses, wanted settings and the
//! queues of operations waiting to be sent.
use vstd::prelude::*;
use im::vector::Vector;
use crate::ids::PublicKey;
use crate::im_collections::{
    new_request_queue, new_response_queue, pop_front_request, pop_front_response,
    push_back_request, push_back_response, request_queue_items, response_queue_items,
};
use crate::messages::{
    anonymize_address, anonymized, FailureSendFunds, FriendStatus, MoveTokenHashed,
    NamedRelayAddress, PendingRequest, RelayAddress, RequestSendFunds, RequestsStatus,
    ResetTerms, ResponseSendFunds,
};
use crate::token_channel::{TcMutation, TokenChannel};

verus! {

/// A response or failure waiting to be sent back to a friend.
#[derive(Clone, Debug, PartialEq, Eq)]
pub enum ResponseOp {
    Response(ResponseSendFunds),
    UnsignedResponse(PendingRequest),
    Failure(FailureSendFunds),
    UnsignedFailure(PendingRequest),
}

/// The local address that was last sent to a friend.
#[derive(Clone, Debug, PartialEq, Eq)]
pub enum SentLocalAddress {
    NeverSent,
    /// (last sent, before last sent)
    Transition(Vec<NamedRelayAddress>, Vec<NamedRelayAddress>),
    LastSent(Vec<NamedRelayAddress>),
}

impl SentLocalAddress {
    /// The addresses that the friend may still use to reach this node, last
    /// sent first, without their names.
    pub fn to_vec(&self) -> (r: Vec<Vec<RelayAddress>>)
        ensures
            match self {
                SentLocalAddress::NeverSent => r@.len() == 0,
                SentLocalAddress::Transition(last, prev) => {
                    &&& r@.len() == 2
                    &&& r@[0]@ == anonymized(last@)
                    &&& r@[1]@ == anonymized(prev@)
                },
                SentLocalAddress::LastSent(last) => r@.len() == 1 && r@[0]@ == anonymized(last@),
            },
    {
        let mut r: Vec<Vec<RelayAddress>> = Vec::new();
        match self {
            SentLocalAddress::NeverSent => {},
            SentLocalAddress::Transition(last_address, prev_last_address) => {
                r.push(anonymize_address(last_address));
                r.push(anonymize_address(prev_last_address));
            },
            SentLocalAddress::LastSent(last_address) => {
                r.push(anonymize_address(last_address));
            },
        }
        r
    }
}

/// A channel that the two sides disagree on, waiting for a reset.
#[derive(Clone, Copy, Debug, PartialEq, Eq)]
pub struct ChannelInconsistent {
    pub opt_last_incoming_move_token: Option<MoveTokenHashed>,
    pub local_reset_terms: ResetTerms,
    pub opt_remote_reset_terms: Option<ResetTerms>,
}

/// The channel with a friend, consistent or not.
#[derive(Clone, Copy, Debug, PartialEq, Eq)]
pub enum ChannelStatus {
    Inconsistent(ChannelInconsistent),
    Consistent(TokenChannel),
}

impl ChannelStatus {
    /// The last move token received from the friend, if any.
    pub open spec fn last_incoming_move_token(self) -> Option<MoveTokenHashed> {
        match self {
            ChannelStatus::Inconsistent(c) => c.opt_last_incoming_move_token,
            ChannelStatus::Consistent(tc) => tc.opt_last_incoming_move_token,
        }
    }

    /// The last move token received from the friend, if any.
    pub fn get_last_incoming_move_token_hashed(&self) -> (r: Option<MoveTokenHashed>)
        ensures
            r == self.last_incoming_move_token(),
    {
        match self {
            ChannelStatus::Inconsistent(channel_inconsistent) => channel_inconsistent.opt_last_incoming_move_token,
            ChannelStatus::Consistent(token_channel) => token_channel.get_last_incoming_move_token_hashed(),
        }
    }
}

/// A change to the state of a friend.
#[derive(Clone, Debug, PartialEq, Eq)]
pub enum FriendMutation {
    TcMutation(TcMutation),
    SetInconsistent(ChannelInconsistent),
    SetConsistent(TokenChannel),
    SetWantedRemoteMaxDebt(u128),
    SetWantedLocalRequestsStatus(RequestsStatus),
    PushBackPendingRequest(RequestSendFunds),
    PopFrontPendingRequest,
    PushBackPendingResponse(ResponseOp),
    PopFrontPendingResponse,
    PushBackPendingUserRequest(RequestSendFunds),
    PopFrontPendingUserRequest,
    SetStatus(FriendStatus),
    SetRemoteAddress(Vec<RelayAddress>),
    SetName(String),
    SetSentLocalAddress(SentLocalAddress),
}

/// The state of a friend.
pub struct FriendState {
    pub local_public_key: PublicKey,
    pub remote_public_key: PublicKey,
    pub remote_address: Vec<RelayAddress>,
    pub sent_local_address: SentLocalAddress,
    pub name: String,
    pub channel_status: ChannelStatus,
    pub wanted_remote_max_debt: u128,
    pub wanted_local_requests_status: RequestsStatus,
    pub pending_requests: Vector<RequestSendFunds>,
    /// Pending operations to be sent to the token channel.
    pub pending_responses: Vector<ResponseOp>,
    pub status: FriendStatus,
    /// Requests that the user has sent to this friend, not processed yet.
    pub pending_user_requests: Vector<RequestSendFunds>,
}

/// What the state of a friend holds, its queues as sequences.
pub struct FriendStateView {
    pub local_public_key: PublicKey,
    pub remote_public_key: PublicKey,
    pub remote_address: Vec<RelayAddress>,
    pub sent_local_address: SentLocalAddress,
    pub name: String,
    pub channel_status: ChannelStatus,
    pub wanted_remote_max_debt: u128,
    pub wanted_local_requests_status: RequestsStatus,
    pub pending_requests: Seq<RequestSendFunds>,
    pub pending_responses: Seq<ResponseOp>,
    pub status: FriendStatus,
    pub pending_user_requests: Seq<RequestSendFunds>,
}

impl View for FriendState {
    type V = FriendStateView;

    open spec fn view(&self) -> FriendStateView {
        FriendStateView {
            local_public_key: self.local_public_key,
            remote_public_key: self.remote_public_key,
            remote_address: self.remote_address,
            sent_local_address: self.sent_local_address,
            name: self.name,
            channel_status: self.channel_status,
            wanted_remote_max_debt: self.wanted_remote_max_debt,
            wanted_local_requests_status: self.wanted_local_requests_status,
            pending_requests: request_queue_items(self.pending_requests),
            pending_responses: response_queue_items(self.pending_responses),
            status: self.status,
            pending_user_requests: request_queue_items(self.pending_user_requests),
        }
    }
}

/// `x` saturated into the range of `u128`.
pub open spec fn clamp_u128(x: int) -> u128 {
    if x < 0 {
        0
    } else if x > u128::MAX {
        u128::MAX
    } else {
        x as u128
    }
}

/// Adds a signed amount to an unsigned one, saturating at both ends of the
/// range of `u128`.
pub fn saturating_add_signed(a: u128, b: i128) -> (r: u128)
    ensures
        r == clamp_u128(a + b),
{
    if b >= 0 {
        a.saturating_add(b as u128)
    } else {
        let magnitude: u128 = ((-(b + 1)) as u128) + 1;
        a.saturating_sub(magnitude)
    }
}

impl FriendStateView {
    /// A friend just added: consistent channel with the given balance,
    /// nothing wanted, nothing pending, disabled.
    pub open spec fn fresh(
        local_public_key: PublicKey,
        remote_public_key: PublicKey,
        remote_address: Vec<RelayAddress>,
        name: String,
        balance: i128,
    ) -> FriendStateView {
        FriendStateView {
            local_public_key,
            remote_public_key,
            remote_address,
            sent_local_address: SentLocalAddress::NeverSent,
            name,
            channel_status: ChannelStatus::Consistent(
                TokenChannel::fresh(local_public_key, remote_public_key, balance),
            ),
            wanted_remote_max_debt: 0,
            wanted_local_requests_status: RequestsStatus::Closed,
            pending_requests: Seq::empty(),
            pending_responses: Seq::empty(),
            status: FriendStatus::Disabled,
            pending_user_requests: Seq::empty(),
        }
    }

    /// The credits shared with this friend: its local max debt plus the
    /// balance, saturated; none while the channel is inconsistent.
    pub open spec fn shared_credits(self) -> u128 {
        match self.channel_status {
            ChannelStatus::Consistent(tc) => clamp_u128(tc.balance.local_max_debt + tc.balance.balance),
            ChannelStatus::Inconsistent(_) => 0,
        }
    }

    /// A mutation can be applied: a token channel mutation needs a
    /// consistent channel.
    pub open spec fn accepts(self, m: FriendMutation) -> bool {
        match m {
            FriendMutation::TcMutation(_) => self.channel_status is Consistent,
            _ => true,
        }
    }

    /// The state after a mutation.
    pub open spec fn mutated(self, m: FriendMutation) -> FriendStateView {
        match m {
            FriendMutation::TcMutation(tc_mutation) => match self.channel_status {
                ChannelStatus::Consistent(tc) => FriendStateView {
                    channel_status: ChannelStatus::Consistent(tc.mutated(tc_mutation)),
                    ..self
                },
                ChannelStatus::Inconsistent(_) => self,
            },
            FriendMutation::SetInconsistent(c) => FriendStateView {
                channel_status: ChannelStatus::Inconsistent(c),
                ..self
            },
            FriendMutation::SetConsistent(tc) => FriendStateView {
                channel_status: ChannelStatus::Consistent(tc),
                ..self
            },
            FriendMutation::SetWantedRemoteMaxDebt(d) => FriendStateView {
                wanted_remote_max_debt: d,
                ..self
            },
            FriendMutation::SetWantedLocalRequestsStatus(s) => FriendStateView {
                wanted_local_requests_status: s,
                ..self
            },
            FriendMutation::PushBackPendingRequest(r) => FriendStateView {
                pending_requests: self.pending_requests.push(r),
                ..self
            },
            FriendMutation::PopFrontPendingRequest => FriendStateView {
                pending_requests: drop_front(self.pending_requests),
                ..self
            },
            FriendMutation::PushBackPendingResponse(r) => FriendStateView {
                pending_responses: self.pending_responses.push(r),
                ..self
            },
            FriendMutation::PopFrontPendingResponse => FriendStateView {
                pending_responses: drop_front(self.pending_responses),
                ..self
            },
            FriendMutation::PushBackPendingUserRequest(r) => FriendStateView {
                pending_user_requests: self.pending_user_requests.push(r),
                ..self
            },
            FriendMutation::PopFrontPendingUserRequest => FriendStateView {
                pending_user_requests: drop_front(self.pending_user_requests),
                ..self
            },
            FriendMutation::SetStatus(s) => FriendStateView { status: s, ..self },
            FriendMutation::SetRemoteAddress(a) => FriendStateView { remote_address: a, ..self },
            FriendMutation::SetName(n) => FriendStateView { name: n, ..self },
            FriendMutation::SetSentLocalAddress(a) => FriendStateView {
                sent_local_address: a,
                ..self
            },
        }
    }
}

/// A queue without its front element; an empty queue stays empty.
pub open spec fn drop_front<A>(q: Seq<A>) -> Seq<A> {
    if q.len() == 0 {
        q
    } else {
        q.drop_first()
    }
}

impl FriendState {
    /// A new friend with a consistent channel of the given balance.
    pub fn new(
        local_public_key: &PublicKey,
        remote_public_key: &PublicKey,
        remote_address: Vec<RelayAddress>,
        name: String,
        balance: i128,
    ) -> (r: Self)
        ensures
            r@ == FriendStateView::fresh(*local_public_key, *remote_public_key, remote_address, name, balance),
    {
        let token_channel = TokenChannel::new(local_public_key, remote_public_key, balance);
        FriendState {
            local_public_key: *local_public_key,
            remote_public_key: *remote_public_key,
            remote_address,
            sent_local_address: SentLocalAddress::NeverSent,
            name,
            channel_status: ChannelStatus::Consistent(token_channel),
            wanted_remote_max_debt: 0,
            wanted_local_requests_status: RequestsStatus::Closed,
            pending_requests: new_request_queue(),
            pending_responses: new_response_queue(),
            status: FriendStatus::Disabled,
            pending_user_requests: new_request_queue(),
        }
    }

    /// The credits shared with this friend, used for freeze guard
    /// calculations: the capacity that the rest of the friends share.
    pub fn get_shared_credits(&self) -> (r: u128)
        ensures
            r == self@.shared_credits(),
    {
        match &self.channel_status {
            ChannelStatus::Consistent(token_channel) => {
                let balance = &token_channel.balance;
                saturating_add_signed(balance.local_max_debt, balance.balance)
            },
            ChannelStatus::Inconsistent(_channel_inconsistent) => 0,
        }
    }

    /// Whether the friend accepts a mutation: a token channel mutation
    /// needs a consistent channel.
    pub fn accepts(&self, friend_mutation: &FriendMutation) -> (r: bool)
        ensures
            r == self@.accepts(*friend_mutation),
    {
        match friend_mutation {
            FriendMutation::TcMutation(_) => match self.channel_status {
                ChannelStatus::Consistent(_) => true,
                ChannelStatus::Inconsistent(_) => false,
            },
            _ => true,
        }
    }

    /// Applies a mutation.
    pub fn mutate(&mut self, friend_mutation: FriendMutation)
        requires
            old(self)@.accepts(friend_mutation),
        ensures
            final(self)@ == old(self)@.mutated(friend_mutation),
    {
        match friend_mutation {
            FriendMutation::TcMutation(tc_mutation) => {
                if let ChannelStatus::Consistent(token_channel) = self.channel_status {
                    let mut token_channel = token_channel;
                    token_channel.mutate(&tc_mutation);
                    self.channel_status = ChannelStatus::Consistent(token_channel);
                }
            },
            FriendMutation::SetInconsistent(channel_inconsistent) => {
                self.channel_status = ChannelStatus::Inconsistent(channel_inconsistent);
            },
            FriendMutation::SetConsistent(token_channel) => {
                self.channel_status = ChannelStatus::Consistent(token_channel);
            },
            FriendMutation::SetWantedRemoteMaxDebt(wanted_remote_max_debt) => {
                self.wanted_remote_max_debt = wanted_remote_max_debt;
            },
            FriendMutation::SetWantedLocalRequestsStatus(wanted_local_requests_status) => {
                self.wanted_local_requests_status = wanted_local_requests_status;
            },
            FriendMutation::PushBackPendingRequest(request_send_funds) => {
                push_back_request(&mut self.pending_requests, request_send_funds);
            },
            FriendMutation::PopFrontPendingRequest => {
                let _ = pop_front_request(&mut self.pending_requests);
            },
            FriendMutation::PushBackPendingResponse(response_op) => {
                push_back_response(&mut self.pending_responses, response_op);
            },
            FriendMutation::PopFrontPendingResponse => {
                let _ = pop_front_response(&mut self.pending_responses);
            },
            FriendMutation::PushBackPendingUserRequest(request_send_funds) => {
                push_back_request(&mut self.pending_user_requests, request_send_funds);
            },
            FriendMutation::PopFrontPendingUserRequest => {
                let _ = pop_front_request(&mut self.pending_user_requests);
            },
            FriendMutation::SetStatus(friend_status) => {
                self.status = friend_status;
            },
            FriendMutation::SetRemoteAddress(friend_addr) => {
                self.remote_address = friend_addr;
            },
            FriendMutation::SetName(friend_name) => {
                self.name = friend_name;
            },
            FriendMutation::SetSentLocalAddress(sent_local_address) => {
                self.sent_local_address = sent_local_address;
            },
        }
    }
}

} // verus!

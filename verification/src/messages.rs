//! The messages and records that the funder keeps: requests, responses,
//! relay addresses, currencies and receipts.
use vstd::prelude::*;
use crate::ids::{
    HashResult, HashedLock, InvoiceId, PlainLock, PublicKey, RandValue, Signature, Uid,
};

verus! {

/// Whether a friend is enabled.
#[derive(Clone, Copy, Debug, PartialEq, Eq)]
pub enum FriendStatus {
    Enabled,
    Disabled,
}

/// Whether requests may be sent through a friend.
#[derive(Clone, Copy, Debug, PartialEq, Eq)]
pub enum RequestsStatus {
    Open,
    Closed,
}

/// A route of nodes, given by their public keys.
#[derive(Clone, Debug, PartialEq, Eq)]
pub struct FriendsRoute {
    pub public_keys: Vec<PublicKey>,
}

/// A request to send funds along a route.
#[derive(Clone, Debug, PartialEq, Eq)]
pub struct RequestSendFunds {
    pub request_id: Uid,
    pub route: FriendsRoute,
    pub dest_payment: u128,
    pub invoice_id: InvoiceId,
}

/// A request that waits for its response.
#[derive(Clone, Debug, PartialEq, Eq)]
pub struct PendingRequest {
    pub request_id: Uid,
    pub route: FriendsRoute,
    pub dest_payment: u128,
    pub invoice_id: InvoiceId,
}

/// A signed response to a request.
#[derive(Clone, Copy, Debug, PartialEq, Eq)]
pub struct ResponseSendFunds {
    pub request_id: Uid,
    pub rand_nonce: RandValue,
    pub signature: Signature,
}

/// A signed failure report for a request.
#[derive(Clone, Copy, Debug, PartialEq, Eq)]
pub struct FailureSendFunds {
    pub request_id: Uid,
    pub reporting_public_key: PublicKey,
    pub rand_nonce: RandValue,
    pub signature: Signature,
}

/// The terms on which a token channel may be reset.
#[derive(Clone, Copy, Debug, PartialEq, Eq)]
pub struct ResetTerms {
    pub reset_token: Signature,
    pub inconsistency_counter: u64,
    pub balance_for_reset: i128,
}

/// The hashed summary of a move token.
#[derive(Clone, Copy, Debug, PartialEq, Eq)]
pub struct MoveTokenHashed {
    pub prefix_hash: HashResult,
    pub local_public_key: PublicKey,
    pub remote_public_key: PublicKey,
    pub inconsistency_counter: u64,
    pub move_token_counter: u128,
    pub balance: i128,
    pub local_pending_debt: u128,
    pub remote_pending_debt: u128,
    pub rand_nonce: RandValue,
    pub new_token: Signature,
}

/// A currency, by name.
#[derive(Clone, Debug, PartialEq, Eq)]
pub struct Currency {
    pub name: String,
}

/// A receipt for a completed payment.
#[derive(Clone, Debug, PartialEq, Eq)]
pub struct Receipt {
    pub response_hash: HashResult,
    pub invoice_id: InvoiceId,
    pub currency: Currency,
    pub src_plain_lock: PlainLock,
    pub dest_plain_lock: PlainLock,
    pub is_complete: bool,
    pub dest_payment: u128,
    pub total_dest_payment: u128,
    pub signature: Signature,
}

/// A response to a request that this node originated.
#[derive(Clone, Copy, Debug, PartialEq, Eq)]
pub struct ResponseSendFundsOp {
    pub request_id: Uid,
    pub src_hashed_lock: HashedLock,
    pub dest_plain_lock: PlainLock,
    pub is_complete: bool,
    pub rand_nonce: RandValue,
    pub signature: Signature,
}

/// A network address.
#[derive(Clone, Debug, PartialEq, Eq)]
pub struct NetAddress(pub String);

/// A relay: its public key and where to reach it.
#[derive(Clone, Debug, PartialEq, Eq)]
pub struct RelayAddress {
    pub public_key: PublicKey,
    pub address: NetAddress,
}

/// A relay with a name given by the user.
#[derive(Clone, Debug, PartialEq, Eq)]
pub struct NamedRelayAddress {
    pub public_key: PublicKey,
    pub address: NetAddress,
    pub name: String,
}

/// A request to add a friend.
#[derive(Clone, Debug, PartialEq, Eq)]
pub struct AddFriend {
    pub friend_public_key: PublicKey,
    pub relays: Vec<RelayAddress>,
    pub name: String,
    pub balance: i128,
}

impl NetAddress {
    /// A copy of the address.
    pub fn duplicate(&self) -> (r: Self)
        ensures
            r == *self,
    {
        NetAddress(self.0.clone())
    }
}

/// What a named relay address is without its name.
pub open spec fn anonymized(named: Seq<NamedRelayAddress>) -> Seq<RelayAddress> {
    Seq::new(
        named.len(),
        |i: int| RelayAddress { public_key: named[i].public_key, address: named[i].address },
    )
}

/// Drops the names of relay addresses.
pub fn anonymize_address(named: &Vec<NamedRelayAddress>) -> (r: Vec<RelayAddress>)
    ensures
        r@ == anonymized(named@),
{
    let mut r: Vec<RelayAddress> = Vec::new();
    let mut i: usize = 0;
    while i < named.len()
        invariant
            i <= named@.len(),
            r@ == anonymized(named@.take(i as int)),
        decreases named@.len() - i,
    {
        let a = RelayAddress {
            public_key: named[i].public_key,
            address: named[i].address.duplicate(),
        };
        r.push(a);
        i = i + 1;
        assert(anonymized(named@.take(i as int)) =~= anonymized(named@.take(i - 1)).push(a));
    }
    assert(named@.take(i as int) =~= named@);
    r
}

} // verus!

//! The persistent collections of the `im` crate that the funder keeps its
//! queues, relays and request sets in, with what this library relies on of
//! each method it calls.
use vstd::prelude::*;
use im::hashset::HashSet;
use im::vector::Vector;
use crate::friend::ResponseOp;
use crate::ids::{MapKey, PublicKey, Uid};
use crate::messages::{NamedRelayAddress, RequestSendFunds};

verus! {

#[verifier::external_type_specification]
#[verifier::external_body]
#[verifier::reject_recursive_types(A)]
pub struct ExVector<A>(Vector<A>);

#[verifier::external_type_specification]
#[verifier::external_body]
#[verifier::reject_recursive_types(A)]
#[verifier::reject_recursive_types(S)]
pub struct ExHashSet<A, S>(HashSet<A, S>);

/// The requests in a request queue, front first.
pub uninterp spec fn request_queue_items(q: Vector<RequestSendFunds>) -> Seq<RequestSendFunds>;

/// The responses in a response queue, front first.
pub uninterp spec fn response_queue_items(q: Vector<ResponseOp>) -> Seq<ResponseOp>;

/// The relays in a relay list, in order.
pub uninterp spec fn relay_list_items(l: Vector<NamedRelayAddress>) -> Seq<NamedRelayAddress>;

/// The request identifiers in a set of them.
pub uninterp spec fn request_id_set(s: HashSet<Uid>) -> Set<Uid>;

/// `Vector::new`: an empty request queue.
#[verifier::external_body]
pub(crate) fn new_request_queue() -> (q: Vector<RequestSendFunds>)
    ensures
        request_queue_items(q) == Seq::<RequestSendFunds>::empty(),
{
    Vector::new()
}

/// `Vector::push_back`: the request joins the back of the queue.
#[verifier::external_body]
pub(crate) fn push_back_request(q: &mut Vector<RequestSendFunds>, r: RequestSendFunds)
    ensures
        request_queue_items(*final(q)) == request_queue_items(*old(q)).push(r),
{
    q.push_back(r)
}

/// `Vector::pop_front`: takes the front request out of the queue; an empty
/// queue stays empty and gives `None`.
#[verifier::external_body]
pub(crate) fn pop_front_request(q: &mut Vector<RequestSendFunds>) -> (r: Option<RequestSendFunds>)
    ensures
        request_queue_items(*old(q)).len() == 0 ==> r is None && request_queue_items(*final(q))
            == request_queue_items(*old(q)),
        request_queue_items(*old(q)).len() > 0 ==> r == Some(request_queue_items(*old(q))[0])
            && request_queue_items(*final(q)) == request_queue_items(*old(q)).drop_first(),
{
    q.pop_front()
}

/// `Vector::new`: an empty response queue.
#[verifier::external_body]
pub(crate) fn new_response_queue() -> (q: Vector<ResponseOp>)
    ensures
        response_queue_items(q) == Seq::<ResponseOp>::empty(),
{
    Vector::new()
}

/// `Vector::push_back`: the response joins the back of the queue.
#[verifier::external_body]
pub(crate) fn push_back_response(q: &mut Vector<ResponseOp>, r: ResponseOp)
    ensures
        response_queue_items(*final(q)) == response_queue_items(*old(q)).push(r),
{
    q.push_back(r)
}

/// `Vector::pop_front`: takes the front response out of the queue; an empty
/// queue stays empty and gives `None`.
#[verifier::external_body]
pub(crate) fn pop_front_response(q: &mut Vector<ResponseOp>) -> (r: Option<ResponseOp>)
    ensures
        response_queue_items(*old(q)).len() == 0 ==> r is None && response_queue_items(*final(q))
            == response_queue_items(*old(q)),
        response_queue_items(*old(q)).len() > 0 ==> r == Some(response_queue_items(*old(q))[0])
            && response_queue_items(*final(q)) == response_queue_items(*old(q)).drop_first(),
{
    q.pop_front()
}

/// `Vector::from_iter`: a relay list holding the relays of `v`, in order.
#[verifier::external_body]
pub(crate) fn relay_list_from_vec(v: Vec<NamedRelayAddress>) -> (l: Vector<NamedRelayAddress>)
    ensures
        relay_list_items(l) == v@,
{
    v.into_iter().collect()
}

/// `Vector::push_back`: the relay joins the end of the list.
#[verifier::external_body]
pub(crate) fn push_back_relay(l: &mut Vector<NamedRelayAddress>, r: NamedRelayAddress)
    ensures
        relay_list_items(*final(l)) == relay_list_items(*old(l)).push(r),
{
    l.push_back(r)
}

/// Whether a relay has another key than `key`.
pub fn relay_key_differs(r: &NamedRelayAddress, key: &PublicKey) -> (b: bool)
    ensures
        b == (r.public_key != *key),
{
    !r.public_key.same(key)
}

/// `Vector::retain` with `relay_key_differs` as the predicate: the relays
/// with key `key` leave the list, and the others keep their order.
#[verifier::external_body]
pub(crate) fn retain_relays_without_key(l: &mut Vector<NamedRelayAddress>, key: &PublicKey)
    ensures
        relay_list_items(*final(l)) == relay_list_items(*old(l)).filter(
            |r: NamedRelayAddress| r.public_key != *key,
        ),
{
    l.retain(|r| relay_key_differs(r, key))
}

/// `HashSet::new`: an empty set of request identifiers.
#[verifier::external_body]
pub(crate) fn new_request_id_set() -> (s: HashSet<Uid>)
    ensures
        request_id_set(s) == Set::<Uid>::empty(),
{
    HashSet::new()
}

/// `HashSet::insert`: the identifier joins the set.
#[verifier::external_body]
pub(crate) fn insert_request_id(s: &mut HashSet<Uid>, id: Uid)
    ensures
        request_id_set(*final(s)) == request_id_set(*old(s)).insert(id),
{
    let _ = s.insert(id);
}

} // verus!

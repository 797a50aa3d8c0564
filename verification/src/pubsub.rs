//! A typed publish/subscribe bus: who is registered, in which order events
//! reach the subscribers, and what becomes of a registration when its
//! handle is given up.
//!
//! The bus owns no events. The payload type is a parameter of the bus, of
//! the callback and of the handle, so that a handle can only be returned to
//! a bus of its own payload type.

use vstd::prelude::*;
use core::marker::PhantomData;
use vstd::seq_lib::lemma_seq_contains_after_push;

verus! {

/// The registrations `s` without the token `t`; the others keep their order.
pub open spec fn without(s: Seq<u64>, t: u64) -> Seq<u64>
    decreases s.len(),
{
    if s.len() == 0 {
        s
    } else if s.last() == t {
        without(s.drop_last(), t)
    } else {
        without(s.drop_last(), t).push(s.last())
    }
}

/// Mathematical content of a bus.
pub struct PubSubView {
    /// Tokens of the live registrations, in the order of registration,
    /// which is the order of delivery.
    pub live: Seq<u64>,
    /// Number of registrations ever made.
    pub issued: nat,
}

/// No token occurs twice.
pub open spec fn distinct(s: Seq<u64>) -> bool {
    forall|i: int, j: int| 0 <= i < j < s.len() ==> s[i] != s[j]
}

/// What always holds of a bus: every live token has been issued, and none
/// is registered twice.
pub open spec fn bus_wf(v: PubSubView) -> bool {
    &&& forall|i: int| 0 <= i < v.live.len() ==> (#[trigger] v.live[i]) < v.issued
    &&& distinct(v.live)
}

/// Distinct tokens stay distinct when one that is not among them is added.
pub proof fn lemma_distinct_push(s: Seq<u64>, t: u64)
    requires
        distinct(s),
        !s.contains(t),
    ensures
        distinct(s.push(t)),
{
    assert forall|i: int, j: int| 0 <= i < j < s.push(t).len() implies s.push(t)[i] != s.push(
        t,
    )[j] by {
        assert(s.contains(s[i]));
    }
}

/// Of distinct tokens, all but the last are distinct, and the last is not
/// among them.
pub proof fn lemma_distinct_drop_last(s: Seq<u64>)
    requires
        distinct(s),
        s.len() > 0,
    ensures
        distinct(s.drop_last()),
        !s.drop_last().contains(s.last()),
{
    let init = s.drop_last();
    if init.contains(s.last()) {
        let k = choose|k: int| 0 <= k < init.len() && init[k] == s.last();
        assert(s[k] != s[s.len() - 1]);
    }
}

/// Removing a token removes exactly that token: every other token stays,
/// none is added, and tokens that were distinct stay distinct.
pub proof fn lemma_without(s: Seq<u64>, t: u64)
    ensures
        forall|u: u64| #[trigger] without(s, t).contains(u) <==> (s.contains(u) && u != t),
        without(s, t).len() <= s.len(),
        distinct(s) ==> distinct(without(s, t)),
        !s.contains(t) ==> without(s, t) == s,
    decreases s.len(),
{
    if s.len() > 0 {
        let init = s.drop_last();
        let last = s.last();
        let w = without(init, t);
        lemma_without(init, t);
        assert(s =~= init.push(last));
        assert forall|u: u64| #[trigger]
            without(s, t).contains(u) <==> (s.contains(u) && u != t) by {
            lemma_seq_contains_after_push(init, last, u);
            lemma_seq_contains_after_push(w, last, u);
        }
        if distinct(s) {
            lemma_distinct_drop_last(s);
            if last != t {
                lemma_distinct_push(w, last);
            }
        }
        if !s.contains(t) {
            lemma_seq_contains_after_push(init, last, t);
        }
    }
}

/// On a well-formed bus a token is live only if it has been issued.
pub proof fn lemma_below_issued(v: PubSubView, t: u64)
    requires
        bus_wf(v),
    ensures
        v.live.contains(t) ==> t < v.issued,
{
    if v.live.contains(t) {
        let k = choose|k: int| 0 <= k < v.live.len() && v.live[k] == t;
        assert(v.live[k] < v.issued);
    }
}

/// One operation on a bus.
pub enum BusOp {
    /// A new registration.
    Subscribe,
    /// The end of the registration with this token.
    Unsubscribe(u64),
}

/// The bus after one operation. A new registration gets the next token
/// and is served last; ending a registration removes its token and leaves
/// the others in their order.
pub open spec fn apply(v: PubSubView, op: BusOp) -> PubSubView {
    match op {
        BusOp::Subscribe => PubSubView {
            live: v.live.push(v.issued as u64),
            issued: v.issued + 1,
        },
        BusOp::Unsubscribe(t) => PubSubView { live: without(v.live, t), issued: v.issued },
    }
}

/// The bus after a series of operations.
pub open spec fn apply_all(v: PubSubView, ops: Seq<BusOp>) -> PubSubView
    decreases ops.len(),
{
    if ops.len() == 0 {
        v
    } else {
        apply(apply_all(v, ops.drop_last()), ops.last())
    }
}

/// Every operation keeps the bus well formed and never takes a token back
/// into use, as long as the tokens do not run out.
pub proof fn lemma_apply(v: PubSubView, op: BusOp)
    requires
        bus_wf(v),
        op is Subscribe ==> v.issued < u64::MAX,
    ensures
        bus_wf(apply(v, op)),
        v.issued <= apply(v, op).issued <= v.issued + 1,
        forall|t: u64|
            t < v.issued && !v.live.contains(t) ==> !(#[trigger] apply(v, op).live.contains(t)),
        forall|t: u64|
            v.live.contains(t) && op != BusOp::Unsubscribe(t) ==> #[trigger] apply(
                v,
                op,
            ).live.contains(t),
{
    match op {
        BusOp::Subscribe => {
            let fresh = v.issued as u64;
            lemma_below_issued(v, fresh);
            lemma_distinct_push(v.live, fresh);
            assert forall|t: u64| #[trigger]
                v.live.push(fresh).contains(t) <==> (t == fresh || v.live.contains(t)) by {
                lemma_seq_contains_after_push(v.live, fresh, t);
            }
            assert forall|i: int| 0 <= i < v.live.push(fresh).len() implies (#[trigger] v.live.push(
                fresh,
            )[i]) < v.issued + 1 by {
                if i < v.live.len() {
                    assert(v.live[i] < v.issued);
                }
            }
        },
        BusOp::Unsubscribe(gone) => {
            lemma_without(v.live, gone);
            let live = without(v.live, gone);
            assert forall|i: int| 0 <= i < live.len() implies (#[trigger] live[i]) < v.issued by {
                assert(live.contains(live[i]));
                lemma_below_issued(v, live[i]);
            }
        },
    }
}

/// A series of operations keeps the bus well formed.
pub proof fn lemma_apply_all(v: PubSubView, ops: Seq<BusOp>)
    requires
        bus_wf(v),
        v.issued + ops.len() <= u64::MAX,
    ensures
        bus_wf(apply_all(v, ops)),
        v.issued <= apply_all(v, ops).issued <= v.issued + ops.len(),
    decreases ops.len(),
{
    if ops.len() > 0 {
        lemma_apply_all(v, ops.drop_last());
        lemma_apply(apply_all(v, ops.drop_last()), ops.last());
    }
}

/// Subscription lifecycle: once a registration has ended, no later event
/// reaches it, whatever else is done with the bus: its token is not among
/// the recipients again.
pub proof fn lemma_unsubscribed_never_served(v: PubSubView, t: u64, ops: Seq<BusOp>)
    requires
        bus_wf(v),
        t < v.issued,
        v.issued + ops.len() <= u64::MAX,
    ensures
        !apply_all(apply(v, BusOp::Unsubscribe(t)), ops).live.contains(t),
    decreases ops.len(),
{
    let start = apply(v, BusOp::Unsubscribe(t));
    lemma_without(v.live, t);
    lemma_apply(v, BusOp::Unsubscribe(t));
    if ops.len() > 0 {
        let before = apply_all(start, ops.drop_last());
        lemma_unsubscribed_never_served(v, t, ops.drop_last());
        lemma_apply_all(start, ops.drop_last());
        lemma_apply(before, ops.last());
    }
}

/// Independence of subscriptions: a live registration stays live, and so
/// keeps receiving every event, through any operations other than its own
/// end; neither new registrations nor the end of others affect it.
pub proof fn lemma_live_until_unsubscribed(v: PubSubView, t: u64, ops: Seq<BusOp>)
    requires
        bus_wf(v),
        v.live.contains(t),
        v.issued + ops.len() <= u64::MAX,
        forall|i: int| 0 <= i < ops.len() ==> ops[i] != BusOp::Unsubscribe(t),
    ensures
        apply_all(v, ops).live.contains(t),
    decreases ops.len(),
{
    if ops.len() > 0 {
        let before = apply_all(v, ops.drop_last());
        lemma_live_until_unsubscribed(v, t, ops.drop_last());
        lemma_apply_all(v, ops.drop_last());
        lemma_apply(before, ops.last());
    }
}

/// Two registrations made one after the other are both served, in the
/// order in which they were made, and ending either leaves the other.
pub proof fn lemma_two_subscriptions(v: PubSubView)
    requires
        bus_wf(v),
        v.issued + 2 <= u64::MAX,
    ensures
        ({
            let a = v.issued as u64;
            let b = (v.issued + 1) as u64;
            let both = apply(apply(v, BusOp::Subscribe), BusOp::Subscribe);
            &&& both.live == v.live.push(a).push(b)
            &&& both.live.contains(a) && both.live.contains(b)
            &&& apply(both, BusOp::Unsubscribe(a)).live.contains(b)
            &&& !apply(both, BusOp::Unsubscribe(a)).live.contains(a)
            &&& apply(both, BusOp::Unsubscribe(b)).live.contains(a)
            &&& !apply(both, BusOp::Unsubscribe(b)).live.contains(b)
        }),
{
    let a = v.issued as u64;
    let b = (v.issued + 1) as u64;
    let one = apply(v, BusOp::Subscribe);
    let both = apply(one, BusOp::Subscribe);
    assert(both.live[both.live.len() - 2] == a);
    lemma_without(both.live, a);
    lemma_without(both.live, b);
}

/// A typed closure: the storage of one subscriber's callback.
pub struct Callback<T, F: Fn(&T)> {
    callback: F,
    phantom: PhantomData<T>,
}

impl<T, F: Fn(&T)> Callback<T, F> {
    /// The closure held.
    pub closed spec fn function(&self) -> F {
        self.callback
    }

    /// Wraps a closure.
    pub fn new(callback: F) -> (c: Self)
        ensures
            c.function() == callback,
    {
        Self { callback, phantom: PhantomData }
    }

    /// Hands one event to the closure.
    pub fn on_callback(&self, data: &T)
        requires
            call_requires(self.function(), (data,)),
        ensures
            call_ensures(self.function(), (data,), ()),
    {
        (self.callback)(data)
    }
}

/// A live registration. It owns the callback's storage and cannot be
/// copied: giving it back to the bus is the only way to end it.
pub struct Subscription<T, F: Fn(&T)> {
    token: u64,
    callback: Callback<T, F>,
}

impl<T, F: Fn(&T)> Subscription<T, F> {
    /// The registration token.
    pub closed spec fn id(&self) -> u64 {
        self.token
    }

    /// The callback registered.
    pub closed spec fn callback(&self) -> Callback<T, F> {
        self.callback
    }

    /// The registration token.
    pub fn token(&self) -> (t: u64)
        ensures
            t == self.id(),
    {
        self.token
    }

    /// Delivers one event to this subscriber's callback.
    pub fn deliver(&self, event: &T)
        requires
            call_requires(self.callback().function(), (event,)),
        ensures
            call_ensures(self.callback().function(), (event,), ()),
    {
        self.callback.on_callback(event)
    }
}

/// An event bus for payloads of type `T`.
pub struct PubSub<T> {
    live: Vec<u64>,
    next: u64,
    phantom: PhantomData<T>,
}

impl<T> View for PubSub<T> {
    type V = PubSubView;

    closed spec fn view(&self) -> PubSubView {
        PubSubView { live: self.live@, issued: self.next as nat }
    }
}

impl<T> PubSub<T> {
    #[verifier::type_invariant]
    spec fn inv(self) -> bool {
        bus_wf(self@)
    }

    /// A bus without subscribers.
    pub fn new() -> (bus: Self)
        ensures
            bus@.live == Seq::<u64>::empty(),
            bus@.issued == 0,
            bus_wf(bus@),
    {
        Self { live: Vec::new(), next: 0, phantom: PhantomData }
    }

    /// Registers a callback. The handle returned carries a token that the
    /// bus has never given out before; the new subscriber is the last to be
    /// served.
    pub fn subscribe<F: Fn(&T)>(&mut self, callback: Callback<T, F>) -> (sub: Subscription<T, F>)
        requires
            old(self)@.issued < u64::MAX,
        ensures
            sub.id() == old(self)@.issued,
            sub.callback() == callback,
            !old(self)@.live.contains(sub.id()),
            final(self)@ == apply(old(self)@, BusOp::Subscribe),
            bus_wf(final(self)@),
    {
        let mut taken: PubSub<T> = PubSub::new();
        core::mem::swap(self, &mut taken);
        proof {
            use_type_invariant(&taken);
        }
        let ghost before = taken@;
        let PubSub { mut live, next, phantom } = taken;
        let token: u64 = next;
        live.push(token);
        proof {
            lemma_below_issued(before, token);
            lemma_apply(before, BusOp::Subscribe);
            assert(live@ == apply(before, BusOp::Subscribe).live);
        }
        *self = PubSub { live, next: token + 1, phantom };
        Subscription { token, callback }
    }

    /// Ends a registration. The handle is consumed: its token leaves the
    /// bus first, then the callback's storage is released. The other
    /// registrations are untouched and keep their order. A handle whose
    /// token is not live on this bus changes nothing.
    pub fn unsubscribe<F: Fn(&T)>(&mut self, subscription: Subscription<T, F>)
        ensures
            final(self)@ == apply(old(self)@, BusOp::Unsubscribe(subscription.id())),
            !final(self)@.live.contains(subscription.id()),
            bus_wf(final(self)@),
    {
        let mut taken: PubSub<T> = PubSub::new();
        core::mem::swap(self, &mut taken);
        proof {
            use_type_invariant(&taken);
        }
        let ghost before = taken@;
        let PubSub { live, next, phantom } = taken;
        let token: u64 = subscription.token;
        let mut kept: Vec<u64> = Vec::new();
        let mut i: usize = 0;
        while i < live.len()
            invariant
                i <= live@.len(),
                kept@ == without(live@.take(i as int), token),
            decreases live@.len() - i,
        {
            let t: u64 = live[i];
            proof {
                assert(live@.take(i + 1).drop_last() =~= live@.take(i as int));
            }
            if t != token {
                kept.push(t);
            }
            i = i + 1;
        }
        proof {
            assert(live@.take(i as int) =~= live@);
            lemma_without(live@, token);
            lemma_apply(before, BusOp::Unsubscribe(token));
        }
        *self = PubSub { live: kept, next, phantom };
    }

    /// The tokens of the subscribers that an event published now is
    /// delivered to, in the order of delivery.
    pub fn recipients(&self) -> (r: Vec<u64>)
        ensures
            r@ == self@.live,
            bus_wf(self@),
    {
        proof {
            use_type_invariant(self);
        }
        let mut r: Vec<u64> = Vec::new();
        let mut i: usize = 0;
        while i < self.live.len()
            invariant
                i <= self.live@.len(),
                r@ == self.live@.take(i as int),
            decreases self.live@.len() - i,
        {
            r.push(self.live[i]);
            i = i + 1;
        }
        r
    }

    /// Whether the registration with this token is live.
    pub fn is_subscribed(&self, token: u64) -> (b: bool)
        ensures
            b == self@.live.contains(token),
    {
        let mut i: usize = 0;
        while i < self.live.len()
            invariant
                i <= self.live@.len(),
                forall|k: int| 0 <= k < i ==> self.live@[k] != token,
            decreases self.live@.len() - i,
        {
            if self.live[i] == token {
                return true;
            }
            i = i + 1;
        }
        false
    }

    /// Whether the bus can still take a registration: whether a token is
    /// left to give out.
    pub fn can_subscribe(&self) -> (b: bool)
        ensures
            b == (self@.issued < u64::MAX),
    {
        self.next < u64::MAX
    }

    /// Number of live registrations.
    pub fn subscriber_count(&self) -> (n: usize)
        ensures
            n == self@.live.len(),
    {
        self.live.len()
    }
}

/// A bus that the application has created itself and has to destroy
/// itself. It is used through the bus inside it; what sets it apart is the
/// end of its life: it may only be freed when no registration is left.
pub struct OwnedPubSub<T> {
    inner: PubSub<T>,
}

impl<T> View for OwnedPubSub<T> {
    type V = PubSubView;

    closed spec fn view(&self) -> PubSubView {
        self.inner@
    }
}

impl<T> OwnedPubSub<T> {
    /// Creates a new bus, without subscribers.
    pub fn create_owned() -> (bus: Self)
        ensures
            bus@.live == Seq::<u64>::empty(),
            bus@.issued == 0,
            bus_wf(bus@),
    {
        Self { inner: PubSub::new() }
    }

    /// The bus, to look at.
    pub fn deref(&self) -> (bus: &PubSub<T>)
        ensures
            bus@ == self@,
    {
        &self.inner
    }

    /// The bus, to subscribe to and to unsubscribe from.
    pub fn deref_mut(&mut self) -> (bus: &mut PubSub<T>)
        ensures
            bus@ == old(self)@,
            final(self)@ == final(bus)@,
    {
        &mut self.inner
    }

    /// Destroys the bus. Every registration must have ended before.
    pub fn free(self)
        requires
            self@.live.len() == 0,
    {
    }
}

} // verus!

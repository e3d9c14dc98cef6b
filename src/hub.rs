//! An in-process dispatcher with the native connect-and-emit contract: each
//! connection gets a fresh identifier, and each emission runs every callback
//! connected to that signal on that object once, in the order of connection,
//! through the signal's trampoline.
use vstd::prelude::*;

use crate::signal::{dispatched, invoke, HostValue, NativeValue, ObjectRef, Signal, TrampolineError};

verus! {

/// One connection of a callback to a signal of an object.
pub struct Subscription<F> {
    pub id: u64,
    pub object: ObjectRef,
    pub signal: Signal,
    pub handler: F,
}

/// Whether the subscription `s` listens to `signal` on `object`.
pub open spec fn listens<F>(s: Subscription<F>, object: ObjectRef, signal: Signal) -> bool {
    s.object == object && s.signal == signal
}

/// The subscriptions of `subs` that listen to `signal` on `object`, in order.
pub open spec fn listeners<F>(subs: Seq<Subscription<F>>, object: ObjectRef, signal: Signal) -> Seq<
    Subscription<F>,
> {
    subs.filter(|s: Subscription<F>| listens(s, object, signal))
}

proof fn lemma_listeners_push<F>(subs: Seq<Subscription<F>>, s: Subscription<F>, object: ObjectRef, signal: Signal)
    ensures
        listeners(subs.push(s), object, signal) == if listens(s, object, signal) {
            listeners(subs, object, signal).push(s)
        } else {
            listeners(subs, object, signal)
        },
{
    reveal(Seq::filter);
    assert(subs.push(s).drop_last() =~= subs);
}

/// Whether `f` can be called on every object handle and argument list.
pub open spec fn callable<F: Fn(ObjectRef, Vec<HostValue>) -> HostValue>(f: F) -> bool {
    forall|o: ObjectRef, a: Vec<HostValue>| call_requires(f, (o, a))
}

/// The connections made so far, and the identifier that the next one gets.
pub struct SignalHub<F> {
    subs: Vec<Subscription<F>>,
    next_id: u64,
}

impl<F: Fn(ObjectRef, Vec<HostValue>) -> HostValue> SignalHub<F> {
    /// The subscriptions, in the order they were made.
    pub closed spec fn entries(&self) -> Seq<Subscription<F>> {
        self.subs@
    }

    /// The identifier that the next connection gets.
    pub closed spec fn next_id(&self) -> u64 {
        self.next_id
    }

    /// The subscriptions that an emission of `signal` on `object` reaches.
    pub open spec fn matching(&self, object: ObjectRef, signal: Signal) -> Seq<Subscription<F>> {
        listeners(self.entries(), object, signal)
    }

    /// Identifiers are nonzero, increase in the order of connection and stay below
    /// the next one; every callback can be called on any arguments.
    pub open spec fn wf(&self) -> bool {
        &&& 0 < self.next_id()
        &&& forall|i: int|
            0 <= i < self.entries().len() ==> 0 < #[trigger] self.entries()[i].id < self.next_id()
        &&& forall|i: int, j: int|
            0 <= i < j < self.entries().len() ==> self.entries()[i].id < self.entries()[j].id
        &&& forall|i: int| 0 <= i < self.entries().len() ==> callable(#[trigger] self.entries()[i].handler)
    }

    /// Whether `after` and `id` are what connecting `f` to `signal` on `object`
    /// makes of `before`: a new subscription under the next identifier when the
    /// object has that signal and identifiers are left, and otherwise `0` and no
    /// change.
    pub open spec fn connected(before: Self, after: Self, object: ObjectRef, signal: Signal, f: F, id: u64) -> bool {
        if object.kind.spec_has_signals_of(signal.spec_owner()) && before.next_id() < u64::MAX {
            &&& id == before.next_id()
            &&& after.next_id() == id + 1
            &&& after.entries() == before.entries().push(
                Subscription { id, object, signal, handler: f },
            )
        } else {
            &&& id == 0
            &&& after.entries() == before.entries()
            &&& after.next_id() == before.next_id()
        }
    }

    /// Whether `rs` is what one emission of `signal` on `object` with native
    /// arguments `args` gives: one outcome for each subscription it reaches, in the
    /// order of connection, each from one call of that subscription's callback.
    pub open spec fn emitted(
        &self,
        object: ObjectRef,
        signal: Signal,
        args: Seq<NativeValue>,
        rs: Seq<Result<NativeValue, TrampolineError>>,
    ) -> bool {
        &&& rs.len() == self.matching(object, signal).len()
        &&& forall|k: int|
            0 <= k < rs.len() ==> dispatched(
                signal,
                object.addr,
                args,
                self.matching(object, signal)[k].handler,
                #[trigger] rs[k],
            )
    }

    /// A hub with no connections.
    pub fn new() -> (r: Self)
        ensures
            r.wf(),
            r.entries().len() == 0,
    {
        SignalHub { subs: Vec::new(), next_id: 1 }
    }

    /// Connects `f` to `signal` on `object` and returns the subscription's
    /// identifier, or `0` when the object does not have that signal or no
    /// identifier is left.
    pub fn connect(&mut self, object: ObjectRef, signal: Signal, f: F) -> (id: u64)
        requires
            old(self).wf(),
            callable(f),
        ensures
            final(self).wf(),
            Self::connected(*old(self), *final(self), object, signal, f, id),
    {
        if !object.kind.has_signals_of(signal.owner()) || self.next_id == u64::MAX {
            return 0;
        }
        let id = self.next_id;
        self.subs.push(Subscription { id, object, signal, handler: f });
        self.next_id = id + 1;
        id
    }

    /// Whether `after` and `r` are what disconnecting the subscription `id` makes
    /// of `before`: that subscription removed and `true` when there is one, and
    /// otherwise `false` and no change.
    pub open spec fn disconnected(before: Self, after: Self, id: u64, r: bool) -> bool {
        &&& after.next_id() == before.next_id()
        &&& if exists|i: int| 0 <= i < before.entries().len() && #[trigger] before.entries()[i].id == id {
            &&& r
            &&& exists|i: int|
                0 <= i < before.entries().len() && #[trigger] before.entries()[i].id == id
                    && after.entries() == before.entries().remove(i)
        } else {
            &&& !r
            &&& after.entries() == before.entries()
        }
    }

    /// Disconnects the subscription `id`, dropping its callback. Returns whether
    /// there was such a subscription.
    pub fn disconnect(&mut self, id: u64) -> (r: bool)
        requires
            old(self).wf(),
        ensures
            final(self).wf(),
            Self::disconnected(*old(self), *final(self), id, r),
    {
        let mut i: usize = 0;
        while i < self.subs.len()
            invariant
                *self == *old(self),
                self.wf(),
                0 <= i <= self.subs@.len(),
                forall|j: int| 0 <= j < i ==> self.subs@[j].id != id,
            decreases self.subs@.len() - i,
        {
            if self.subs[i].id == id {
                let ghost before = self.subs@;
                self.subs.remove(i);
                proof {
                    assert(forall|j: int|
                        0 <= j < self.subs@.len() ==> #[trigger] self.subs@[j] == if j < i {
                            before[j]
                        } else {
                            before[j + 1]
                        });
                }
                return true;
            }
            i = i + 1;
        }
        false
    }

    /// Emits `signal` on `object` with the native arguments `args`: runs each
    /// callback connected to it through the signal's trampoline, once, in the
    /// order of connection, and returns their outcomes in that order.
    pub fn emit(&self, object: ObjectRef, signal: Signal, args: &Vec<NativeValue>) -> (r: Vec<
        Result<NativeValue, TrampolineError>,
    >)
        requires
            self.wf(),
        ensures
            self.emitted(object, signal, args@, r@),
    {
        let mut r: Vec<Result<NativeValue, TrampolineError>> = Vec::new();
        let mut i: usize = 0;
        proof {
            reveal(Seq::filter);
            assert(self.subs@.take(0) =~= Seq::<Subscription<F>>::empty());
        }
        while i < self.subs.len()
            invariant
                self.wf(),
                0 <= i <= self.subs@.len(),
                r@.len() == listeners(self.subs@.take(i as int), object, signal).len(),
                forall|k: int|
                    0 <= k < r@.len() ==> dispatched(
                        signal,
                        object.addr,
                        args@,
                        listeners(self.subs@.take(i as int), object, signal)[k].handler,
                        #[trigger] r@[k],
                    ),
            decreases self.subs@.len() - i,
        {
            let sub = &self.subs[i];
            proof {
                assert(self.subs@.take(i + 1) =~= self.subs@.take(i as int).push(self.subs@[i as int]));
                lemma_listeners_push(self.subs@.take(i as int), self.subs@[i as int], object, signal);
            }
            if sub.object == object && sub.signal == signal {
                proof {
                    assert(callable(self.entries()[i as int].handler));
                }
                let out = invoke(signal, object.addr, args, &sub.handler);
                r.push(out);
            }
            i = i + 1;
        }
        proof {
            assert(self.subs@.take(self.subs@.len() as int) =~= self.subs@);
        }
        r
    }
}

/// Once `f` is connected to `signal` on `object`, each emission of that signal
/// there calls `f` exactly once, on the converted arguments, after the callbacks
/// connected before it; its identifier is one that no earlier subscription has.
pub proof fn lemma_connected_callback_runs_once<F: Fn(ObjectRef, Vec<HostValue>) -> HostValue>(
    before: SignalHub<F>,
    after: SignalHub<F>,
    object: ObjectRef,
    signal: Signal,
    f: F,
    id: u64,
    args: Seq<NativeValue>,
    rs: Seq<Result<NativeValue, TrampolineError>>,
)
    requires
        before.wf(),
        SignalHub::connected(before, after, object, signal, f, id),
        id != 0,
        after.emitted(object, signal, args, rs),
    ensures
        forall|i: int| 0 <= i < before.entries().len() ==> before.entries()[i].id != id,
        rs.len() == before.matching(object, signal).len() + 1,
        dispatched(signal, object.addr, args, f, rs.last()),
        forall|k: int|
            0 <= k < rs.len() - 1 ==> dispatched(
                signal,
                object.addr,
                args,
                before.matching(object, signal)[k].handler,
                #[trigger] rs[k],
            ),
{
    let s = Subscription { id, object, signal, handler: f };
    lemma_listeners_push(before.entries(), s, object, signal);
    assert(after.matching(object, signal) == before.matching(object, signal).push(s));
    assert forall|k: int| 0 <= k < rs.len() - 1 implies dispatched(
        signal,
        object.addr,
        args,
        before.matching(object, signal)[k].handler,
        #[trigger] rs[k],
    ) by {
        assert(after.matching(object, signal)[k] == before.matching(object, signal)[k]);
    }
}

/// Connecting two callbacks to the same signal of the same object gives two
/// different identifiers, and an emission then calls both, in the order they
/// were connected.
pub proof fn lemma_two_connections_both_run<F: Fn(ObjectRef, Vec<HostValue>) -> HostValue>(
    h0: SignalHub<F>,
    h1: SignalHub<F>,
    h2: SignalHub<F>,
    object: ObjectRef,
    signal: Signal,
    f: F,
    g: F,
    id1: u64,
    id2: u64,
    args: Seq<NativeValue>,
    rs: Seq<Result<NativeValue, TrampolineError>>,
)
    requires
        h0.wf(),
        callable(f),
        SignalHub::connected(h0, h1, object, signal, f, id1),
        SignalHub::connected(h1, h2, object, signal, g, id2),
        id1 != 0,
        id2 != 0,
        h2.emitted(object, signal, args, rs),
    ensures
        id1 != id2,
        rs.len() == h0.matching(object, signal).len() + 2,
        dispatched(signal, object.addr, args, f, rs[rs.len() - 2]),
        dispatched(signal, object.addr, args, g, rs[rs.len() - 1]),
{
    let s1 = Subscription { id: id1, object, signal, handler: f };
    let s2 = Subscription { id: id2, object, signal, handler: g };
    lemma_listeners_push(h0.entries(), s1, object, signal);
    lemma_listeners_push(h1.entries(), s2, object, signal);
    let m = h2.matching(object, signal);
    assert(m == h0.matching(object, signal).push(s1).push(s2));
    assert(m[m.len() - 2] == s1);
}

} // verus!

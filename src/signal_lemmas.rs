//! What holds of `CyclicSignal` across several operations, stated over its
//! abstract state `SignalView`.
use vstd::prelude::*;

use crate::signal::{Pull, SignalView};

verus! {

use vstd::arithmetic::div_mod::{lemma_add_mod_noop_right, lemma_mod_self_0, lemma_small_mod};

/// One operation on a signal: a writer's push, or a consumer's poll with its
/// wake-up handle.
pub enum Event<T, W> {
    Push(T),
    Poll(W),
}

impl<T, W> SignalView<T, W> {
    /// The state after one operation.
    pub open spec fn apply(self, e: Event<T, W>) -> Self {
        match e {
            Event::Push(x) => self.after_push(x),
            Event::Poll(w) => self.after_next(w),
        }
    }

    /// The state after the operations `evs`, in order.
    pub open spec fn run(self, evs: Seq<Event<T, W>>) -> Self
        decreases evs.len(),
    {
        if evs.len() == 0 {
            self
        } else {
            self.run(evs.drop_last()).apply(evs.last())
        }
    }

    /// The state after `xs` are pushed, in order.
    pub open spec fn push_all(self, xs: Seq<T>) -> Self
        decreases xs.len(),
    {
        if xs.len() == 0 {
            self
        } else {
            self.push_all(xs.drop_last()).after_push(xs.last())
        }
    }

    /// What `k` polls in a row with handle `w` yield.
    pub open spec fn polls(self, w: W, k: nat) -> Seq<Pull<T>>
        decreases k,
    {
        if k == 0 {
            Seq::empty()
        } else {
            seq![self.outcome()] + self.after_next(w).polls(w, (k - 1) as nat)
        }
    }
}

/// The values pushed by `evs`, in order.
pub open spec fn pushed<T, W>(evs: Seq<Event<T, W>>) -> Seq<T>
    decreases evs.len(),
{
    if evs.len() == 0 {
        Seq::empty()
    } else {
        match evs.last() {
            Event::Push(x) => pushed(evs.drop_last()).push(x),
            Event::Poll(_) => pushed(evs.drop_last()),
        }
    }
}

/// Every operation keeps a well-formed state well-formed.
pub proof fn lemma_operations_keep_wf<T, W>(v: SignalView<T, W>, w: W, x: T)
    requires
        v.wf(),
    ensures
        v.after_next(w).wf(),
        v.after_push(x).wf(),
        v.after_clear().wf(),
{
}

/// Once the cursor has reached the end of non-empty contents, the next read
/// is the first value, and the cursor then stands just past it.
pub proof fn lemma_wrap<T, W>(v: SignalView<T, W>, w: W)
    requires
        v.items.len() > 0,
        v.cursor == v.items.len(),
    ensures
        v.outcome() == Pull::Ready(v.items[0]),
        v.after_next(w).cursor == 1,
{
}

/// No missed wake-up: a poll that finds nothing registers its handle, one
/// push then hands exactly that handle back, and the poll after it yields the
/// pushed value.
pub proof fn lemma_no_missed_wakeup<T, W>(v: SignalView<T, W>, w: W, x: T)
    requires
        v.outcome() is NotYet,
    ensures
        v.after_next(w).waiting == Some(w),
        v.after_next(w).after_push(x).waiting is None,
        v.after_next(w).after_push(x).outcome() == Pull::Ready(x),
{
}

/// A poll right after `clear` yields nothing and registers its handle.
pub proof fn lemma_clear_then_poll<T, W>(v: SignalView<T, W>, w: W)
    ensures
        v.after_clear().outcome() is NotYet,
        v.after_clear().after_next(w).waiting == Some(w),
{
}

/// Polls in a row over non-empty contents go round the contents in order,
/// starting from the read index and wrapping at the end.
pub proof fn lemma_round_robin<T, W>(v: SignalView<T, W>, w: W, k: nat)
    requires
        v.items.len() > 0,
    ensures
        v.polls(w, k).len() == k,
        forall|j: int|
            0 <= j < k ==> #[trigger] v.polls(w, k)[j] == Pull::Ready(
                v.items[(v.read_index() + j) % (v.items.len() as int)],
            ),
    decreases k,
{
    if k > 0 {
        let n = v.items.len() as int;
        let r = v.read_index() as int;
        let u = v.after_next(w);
        lemma_round_robin(u, w, (k - 1) as nat);
        assert(u.read_index() == (r + 1) % n) by {
            if v.read_index() + 1 < n {
                lemma_small_mod((r + 1) as nat, n as nat);
            } else {
                lemma_mod_self_0(n);
            }
        }
        assert forall|j: int| 0 <= j < k implies #[trigger] v.polls(w, k)[j] == Pull::Ready(
            v.items[(v.read_index() + j) % n],
        ) by {
            if j == 0 {
                lemma_small_mod(v.read_index(), n as nat);
            } else {
                assert(v.polls(w, k)[j] == u.polls(w, (k - 1) as nat)[j - 1]);
                lemma_add_mod_noop_right(j - 1, r + 1, n);
                assert((j - 1) + (r + 1) == r + j);
            }
        }
    }
}

/// Pushing `xs` onto a fresh signal and then polling goes round `xs` in push
/// order, from the first value.
pub proof fn lemma_fresh_cycle<T, W>(xs: Seq<T>, w: W, k: nat)
    requires
        xs.len() > 0,
    ensures
        SignalView::<T, W>::empty().push_all(xs).polls(w, k).len() == k,
        forall|j: int|
            0 <= j < k ==> #[trigger] SignalView::<T, W>::empty().push_all(xs).polls(w, k)[j]
                == Pull::Ready(xs[j % (xs.len() as int)]),
{
    let v = SignalView::<T, W>::empty().push_all(xs);
    lemma_push_all(SignalView::<T, W>::empty(), xs);
    lemma_round_robin(v, w, k);
}

/// Pushing appends to the contents and keeps the cursor.
proof fn lemma_push_all<T, W>(v: SignalView<T, W>, xs: Seq<T>)
    requires
        xs.len() > 0,
    ensures
        v.push_all(xs).items == v.items + xs,
        v.push_all(xs).cursor == v.cursor,
        v.push_all(xs).waiting is None,
    decreases xs.len(),
{
    let init = xs.drop_last();
    if init.len() > 0 {
        lemma_push_all(v, init);
    } else {
        assert(v.push_all(init) == v);
    }
    assert(v.push_all(xs) == v.push_all(init).after_push(xs.last()));
    assert(v.items + xs =~= (v.items + init).push(xs.last()));
}

/// However pushes and polls interleave on a fresh signal, its contents are
/// the pushed values in push order; and each poll yields nothing exactly when
/// nothing was pushed before it, and otherwise the value at its read index
/// among those pushed before it.
pub proof fn lemma_reads_come_from_pushes<T, W>(evs: Seq<Event<T, W>>)
    ensures
        SignalView::<T, W>::empty().run(evs).items == pushed(evs),
        SignalView::<T, W>::empty().run(evs).wf(),
        forall|i: int|
            #![trigger evs.take(i)]
            0 <= i < evs.len() && evs[i] is Poll ==> {
                let before = SignalView::<T, W>::empty().run(evs.take(i));
                let earlier = pushed(evs.take(i));
                &&& (before.outcome() is NotYet <==> earlier.len() == 0)
                &&& (before.outcome() matches Pull::Ready(x) ==> {
                    &&& before.read_index() < earlier.len()
                    &&& x == earlier[before.read_index() as int]
                    &&& earlier.contains(x)
                })
            },
    decreases evs.len(),
{
    if evs.len() > 0 {
        let init = evs.drop_last();
        lemma_reads_come_from_pushes(init);
        let s = SignalView::<T, W>::empty().run(init);
        if let Event::Poll(w) = evs.last() {
            lemma_operations_keep_wf(s, w, s.items[0]);
        }
        assert forall|i: int|
            #![trigger evs.take(i)]
            0 <= i < evs.len() && evs[i] is Poll implies {
                let before = SignalView::<T, W>::empty().run(evs.take(i));
                let earlier = pushed(evs.take(i));
                &&& (before.outcome() is NotYet <==> earlier.len() == 0)
                &&& (before.outcome() matches Pull::Ready(x) ==> {
                    &&& before.read_index() < earlier.len()
                    &&& x == earlier[before.read_index() as int]
                    &&& earlier.contains(x)
                })
            } by {
            if i < evs.len() - 1 {
                assert(evs.take(i) =~= init.take(i));
            } else {
                assert(evs.take(i) =~= init);
            }
        }
    }
}

} // verus!

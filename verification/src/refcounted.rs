//! The dual-layout container and the owning-handle protocol.
//!
//! Every object that crosses the boundary is one allocation holding, in
//! order, a foreign-shaped function table, an atomic reference counter and a
//! safe payload.  The foreign side only ever sees a pointer to the table;
//! the bridge sees the whole container.  The [`Heap`] type models the set of
//! such allocations: a raw object pointer is an index into it, a live slot is
//! an allocated container, a freed slot stays `None` forever.
//!
//! The counter starts at 1 — the single owning handle returned at
//! construction — and the container is deallocated exactly when a release
//! moves the counter from 1 to 0.

use vstd::prelude::*;

verus! {

/// The part of a function table that every foreign-shaped object begins
/// with: its declared size and the presence of the four reference-count
/// slots.  A `true` flag stands for an installed function pointer, `false`
/// for a null slot.
#[derive(Clone, Copy, PartialEq, Eq, Structural)]
pub struct BaseRefCounted {
    pub size: usize,
    pub add_ref: bool,
    pub release: bool,
    pub has_one_ref: bool,
    pub has_at_least_one_ref: bool,
}

impl BaseRefCounted {
    /// A table whose slots are all null, as a freshly zeroed record has them.
    pub fn zeroed() -> (b: BaseRefCounted)
        ensures
            b == (BaseRefCounted {
                size: 0,
                add_ref: false,
                release: false,
                has_one_ref: false,
                has_at_least_one_ref: false,
            }),
    {
        BaseRefCounted { size: 0, add_ref: false, release: false, has_one_ref: false, has_at_least_one_ref: false }
    }

    /// All four reference-count slots are installed.
    pub open spec fn fully_installed(self) -> bool {
        self.add_ref && self.release && self.has_one_ref && self.has_at_least_one_ref
    }
}

/// A foreign-shaped function table: a record that begins with a
/// [`BaseRefCounted`] and may carry further slots of its own.
pub trait RefCounter: Sized {
    /// The leading base record of the table.
    spec fn base(&self) -> BaseRefCounted;

    /// The same table with its base record replaced and every other slot
    /// unchanged.
    spec fn with_base(&self, base: BaseRefCounted) -> Self;

    /// Overwrite the leading base record, leaving the rest of the table as
    /// it was.
    fn set_base(&mut self, base: BaseRefCounted)
        ensures
            *final(self) == old(self).with_base(base),
            final(self).base() == base;
}

/// A foreign-origin object is opaque but for its base table, so the base
/// record alone is a complete function table for it.
impl RefCounter for BaseRefCounted {
    open spec fn base(&self) -> BaseRefCounted {
        *self
    }

    open spec fn with_base(&self, base: BaseRefCounted) -> BaseRefCounted {
        base
    }

    fn set_base(&mut self, base: BaseRefCounted) {
        *self = base;
    }
}

/// One allocation: the function table first (the only part the foreign side
/// sees), then the reference counter, then the safe payload.
pub struct RefCounted<C, R> {
    pub cefobj: C,
    pub refcount: u64,
    pub object: R,
}

/// The allocations of one container kind.  A raw object pointer is an index;
/// `None` is a slot whose container has been deallocated.
pub struct Heap<C, R> {
    slots: Vec<Option<RefCounted<C, R>>>,
}

/// An owning handle over a raw object pointer: each live handle accounts for
/// exactly one unit of the object's reference count.  Duplicating a handle
/// goes through [`Heap::clone_ptr`], discarding one through
/// [`Heap::drop_ptr`].
pub struct RefCountedPtr {
    pub ptr: usize,
}

impl<C, R> Heap<C, R> {
    /// How many slots have ever been allocated, freed ones included.
    pub closed spec fn len(&self) -> nat {
        self.slots@.len()
    }

    /// `p` points at a container that is allocated and not yet destroyed.
    pub closed spec fn live(&self, p: int) -> bool {
        0 <= p < self.slots@.len() && self.slots@[p] is Some
    }

    /// The container at `p`.
    pub closed spec fn at(&self, p: int) -> RefCounted<C, R>
        recommends
            self.live(p),
    {
        self.slots@[p]->0
    }

    /// The reference count of the container at `p`.
    pub open spec fn count(&self, p: int) -> u64
        recommends
            self.live(p),
    {
        self.at(p).refcount
    }

    /// Every live container holds at least one unit of reference count: a
    /// count of zero and destruction coincide.
    pub open spec fn wf(&self) -> bool {
        forall|p: int| self.live(p) ==> #[trigger] self.count(p) >= 1
    }

    /// `other` has the same slots, the same liveness and the same counts;
    /// payloads and tables may differ.  A trampoline's borrowed view of a
    /// container must leave the heap in this relation to its old value.
    pub open spec fn same_counts(&self, other: Heap<C, R>) -> bool {
        &&& self.len() == other.len()
        &&& forall|p: int| self.live(p) <==> other.live(p)
        &&& forall|p: int| self.live(p) ==> #[trigger] self.count(p) == other.count(p)
    }

    /// `other` agrees with `self` on length, liveness and counts at every
    /// slot but `p`.
    pub open spec fn same_counts_except(&self, other: Heap<C, R>, p: int) -> bool {
        &&& self.len() == other.len()
        &&& forall|q: int| q != p ==> (self.live(q) <==> other.live(q))
        &&& forall|q: int| self.live(q) && q != p ==> #[trigger] self.count(q) == other.count(q)
    }

    /// A heap with no allocations.  Slot 0 is reserved and never becomes
    /// live: the raw pointer 0 is the null pointer and stands for no
    /// object.
    pub fn empty() -> (h: Heap<C, R>)
        ensures
            h.len() == 1,
            h.wf(),
            !h.live(0),
    {
        let mut slots: Vec<Option<RefCounted<C, R>>> = Vec::new();
        slots.push(None);
        Heap { slots }
    }

    /// Allocate a container for `object`, installing the four
    /// reference-count slots into the table's base record and setting the
    /// counter to 1 for the single handle the caller receives.
    pub fn new(&mut self, cefobj: C, object: R, size: usize) -> (p: usize) where C: RefCounter
        requires
            old(self).wf(),
        ensures
            final(self).wf(),
            p == old(self).len(),
            final(self).len() == old(self).len() + 1,
            final(self).live(p as int),
            final(self).count(p as int) == 1,
            final(self).at(p as int).object == object,
            final(self).at(p as int).cefobj == cefobj.with_base(BaseRefCounted {
                size,
                add_ref: true,
                release: true,
                has_one_ref: true,
                has_at_least_one_ref: true,
            }),
            final(self).at(p as int).cefobj.base().fully_installed(),
            forall|q: int| q != p ==> (final(self).live(q) <==> old(self).live(q)),
            forall|q: int| final(self).live(q) && q != p ==> #[trigger] final(self).at(q) == old(self).at(q),
    {
        let mut cefobj = cefobj;
        cefobj.set_base(BaseRefCounted {
            size,
            add_ref: true,
            release: true,
            has_one_ref: true,
            has_at_least_one_ref: true,
        });
        let p = self.slots.len();
        self.slots.push(Some(RefCounted { cefobj, refcount: 1, object }));
        proof {
            assert forall|q: int| self.live(q) implies #[trigger] self.count(q) >= 1 by {
                if q != p as int {
                    assert(old(self).live(q));
                    assert(old(self).count(q) >= 1);
                }
            }
        }
        p
    }

    /// Add one unit of reference count.  The counter never overflows in
    /// practice — each unit is a live owner — so the bound is a machine
    /// limit, not a protocol rule.
    pub fn add_ref(&mut self, p: usize)
        requires
            old(self).wf(),
            old(self).live(p as int),
            old(self).count(p as int) < u64::MAX,
        ensures
            final(self).wf(),
            final(self).len() == old(self).len(),
            final(self).live(p as int),
            final(self).count(p as int) == old(self).count(p as int) + 1,
            final(self).at(p as int).object == old(self).at(p as int).object,
            final(self).at(p as int).cefobj == old(self).at(p as int).cefobj,
            forall|q: int| q != p ==> (final(self).live(q) <==> old(self).live(q)),
            forall|q: int| final(self).live(q) && q != p ==> #[trigger] final(self).at(q) == old(self).at(q),
    {
        match &mut self.slots[p] {
            Some(rc) => {
                rc.refcount = rc.refcount + 1;
            },
            None => {
                proof {
                    assert(false);
                }
            },
        }
        proof {
            assert forall|q: int| self.live(q) implies #[trigger] self.count(q) >= 1 by {
                if q != p as int {
                    assert(old(self).live(q));
                    assert(old(self).count(q) >= 1);
                }
            }
        }
    }

    /// Remove one unit of reference count.  If the counter was exactly 1 the
    /// container is deallocated and the call reports destruction, so the
    /// foreign side can drop any cached pointer; otherwise the object stays
    /// alive.
    pub fn release(&mut self, p: usize) -> (destroyed: bool)
        requires
            old(self).wf(),
            old(self).live(p as int),
        ensures
            final(self).wf(),
            final(self).len() == old(self).len(),
            destroyed <==> old(self).count(p as int) == 1,
            destroyed ==> !final(self).live(p as int),
            !destroyed ==> final(self).live(p as int)
                && final(self).count(p as int) == old(self).count(p as int) - 1
                && final(self).at(p as int).object == old(self).at(p as int).object
                && final(self).at(p as int).cefobj == old(self).at(p as int).cefobj,
            forall|q: int| q != p ==> (final(self).live(q) <==> old(self).live(q)),
            forall|q: int| final(self).live(q) && q != p ==> #[trigger] final(self).at(q) == old(self).at(q),
    {
        proof {
            assert(old(self).count(p as int) >= 1);
        }
        let destroyed: bool;
        match &mut self.slots[p] {
            Some(rc) => {
                destroyed = rc.refcount == 1;
                rc.refcount = rc.refcount - 1;
            },
            None => {
                proof {
                    assert(false);
                }
                destroyed = false;
            },
        }
        if destroyed {
            self.slots[p] = None;
        }
        proof {
            assert forall|q: int| self.live(q) implies #[trigger] self.count(q) >= 1 by {
                if q != p as int {
                    assert(old(self).live(q));
                    assert(old(self).count(q) >= 1);
                }
            }
        }
        destroyed
    }

    /// Whether exactly one owner remains; the foreign side uses this to
    /// decide whether it may mutate the object in place.
    pub fn has_one_ref(&self, p: usize) -> (r: bool)
        requires
            self.live(p as int),
        ensures
            r <==> self.count(p as int) == 1,
    {
        match &self.slots[p] {
            Some(rc) => rc.refcount == 1,
            None => false,
        }
    }

    /// Whether at least one owner remains.  Under the heap invariant this is
    /// always true of a live object.
    pub fn has_at_least_one_ref(&self, p: usize) -> (r: bool)
        requires
            self.live(p as int),
        ensures
            r <==> self.count(p as int) >= 1,
    {
        match &self.slots[p] {
            Some(rc) => rc.refcount >= 1,
            None => false,
        }
    }

    /// A borrowed view of the container at `p`: a non-owning
    /// reinterpretation of the raw pointer, valid for the duration of one
    /// call.  Taking and dropping it cannot touch the counter or destroy
    /// the container.
    pub fn borrow(&self, p: usize) -> (rc: &RefCounted<C, R>)
        requires
            self.live(p as int),
        ensures
            *rc == self.at(p as int),
    {
        match &self.slots[p] {
            Some(rc) => rc,
            None => unreached(),
        }
    }

    /// A mutable borrowed view of the payload at `p`.  Whatever the borrower
    /// writes, the counter, the table and every other container are exactly
    /// as they were.
    pub fn object_mut(&mut self, p: usize) -> (o: &mut R)
        requires
            old(self).wf(),
            old(self).live(p as int),
        ensures
            *o == old(self).at(p as int).object,
            final(self).len() == old(self).len(),
            final(self).live(p as int),
            final(self).count(p as int) == old(self).count(p as int),
            final(self).at(p as int).cefobj == old(self).at(p as int).cefobj,
            final(self).at(p as int).object == *final(o),
            final(self).same_counts(*old(self)),
            forall|q: int| final(self).live(q) && q != p ==> #[trigger] final(self).at(q) == old(self).at(q),
    {
        match &mut self.slots[p] {
            Some(rc) => &mut rc.object,
            None => unreached(),
        }
    }

    /// Duplicate an owning handle: add one unit of reference count and copy
    /// the raw pointer.
    pub fn clone_ptr(&mut self, h: &RefCountedPtr) -> (r: RefCountedPtr)
        requires
            old(self).wf(),
            old(self).live(h.ptr as int),
            old(self).count(h.ptr as int) < u64::MAX,
        ensures
            final(self).wf(),
            r.ptr == h.ptr,
            final(self).len() == old(self).len(),
            final(self).live(h.ptr as int),
            final(self).count(h.ptr as int) == old(self).count(h.ptr as int) + 1,
            final(self).at(h.ptr as int).object == old(self).at(h.ptr as int).object,
            final(self).at(h.ptr as int).cefobj == old(self).at(h.ptr as int).cefobj,
            handle_step(
                Option::Some(old(self).count(h.ptr as int) as int),
                HandleOp::Duplicate,
            ) == Option::Some(final(self).count(h.ptr as int) as int),
            forall|q: int| q != h.ptr ==> (final(self).live(q) <==> old(self).live(q)),
            forall|q: int| final(self).live(q) && q != h.ptr ==> #[trigger] final(self).at(q) == old(self).at(q),
    {
        self.add_ref(h.ptr);
        RefCountedPtr { ptr: h.ptr }
    }

    /// Discard an owning handle: remove one unit of reference count.  The
    /// result reports whether this was the last owner and the container is
    /// gone.
    pub fn drop_ptr(&mut self, h: RefCountedPtr) -> (destroyed: bool)
        requires
            old(self).wf(),
            old(self).live(h.ptr as int),
        ensures
            final(self).wf(),
            final(self).len() == old(self).len(),
            destroyed <==> old(self).count(h.ptr as int) == 1,
            destroyed ==> !final(self).live(h.ptr as int),
            !destroyed ==> final(self).live(h.ptr as int)
                && final(self).count(h.ptr as int) == old(self).count(h.ptr as int) - 1
                && final(self).at(h.ptr as int).object == old(self).at(h.ptr as int).object
                && final(self).at(h.ptr as int).cefobj == old(self).at(h.ptr as int).cefobj,
            handle_step(Option::Some(old(self).count(h.ptr as int) as int), HandleOp::Discard)
                == (if destroyed {
                Option::<int>::None
            } else {
                Option::Some(final(self).count(h.ptr as int) as int)
            }),
            forall|q: int| q != h.ptr ==> (final(self).live(q) <==> old(self).live(q)),
            forall|q: int| final(self).live(q) && q != h.ptr ==> #[trigger] final(self).at(q) == old(self).at(q),
    {
        self.release(h.ptr)
    }

    /// Allocate a container for `object` and return the single owning
    /// handle its initial count of 1 stands for.
    pub fn wrap(&mut self, cefobj: C, object: R, size: usize) -> (h: RefCountedPtr) where C: RefCounter
        requires
            old(self).wf(),
        ensures
            final(self).wf(),
            h.ptr == old(self).len(),
            final(self).len() == old(self).len() + 1,
            final(self).live(h.ptr as int),
            final(self).count(h.ptr as int) == 1,
            final(self).at(h.ptr as int).object == object,
            final(self).at(h.ptr as int).cefobj == cefobj.with_base(BaseRefCounted {
                size,
                add_ref: true,
                release: true,
                has_one_ref: true,
                has_at_least_one_ref: true,
            }),
            forall|q: int| q != h.ptr ==> (final(self).live(q) <==> old(self).live(q)),
            forall|q: int| final(self).live(q) && q != h.ptr ==> #[trigger] final(self).at(q) == old(self).at(q),
    {
        let p = self.new(cefobj, object, size);
        RefCountedPtr { ptr: p }
    }
}

/// One step that a holder of owning handles may take on one object:
/// duplicating a handle ([`Heap::clone_ptr`]) or discarding one
/// ([`Heap::drop_ptr`]).
pub enum HandleOp {
    Duplicate,
    Discard,
}

/// How many of the steps duplicate a handle.
pub open spec fn duplicate_steps(ops: Seq<HandleOp>) -> nat
    decreases ops.len(),
{
    if ops.len() == 0 {
        0
    } else {
        duplicate_steps(ops.drop_last()) + if ops.last() is Duplicate { 1nat } else { 0nat }
    }
}

/// How many of the steps discard a handle.
pub open spec fn discard_steps(ops: Seq<HandleOp>) -> nat
    decreases ops.len(),
{
    if ops.len() == 0 {
        0
    } else {
        discard_steps(ops.drop_last()) + if ops.last() is Discard { 1nat } else { 0nat }
    }
}

/// The reference count that the bookkeeping predicts after `ops`, starting
/// from the single handle that construction returns.
pub open spec fn counter_after(ops: Seq<HandleOp>) -> int {
    1 + duplicate_steps(ops) - discard_steps(ops)
}

/// Handles are only duplicated or discarded while at least one is held:
/// before every step the predicted count is at least 1.
pub open spec fn ops_valid(ops: Seq<HandleOp>) -> bool {
    forall|i: int| 0 <= i < ops.len() ==> counter_after(#[trigger] ops.take(i)) >= 1
}

/// The object's state under one step: `Some(c)` is a live container with
/// count `c`, `None` a destroyed one.  A discard of the last unit destroys
/// the container; every other step only moves the counter.
pub open spec fn handle_step(state: Option<int>, op: HandleOp) -> Option<int> {
    match state {
        Option::Some(c) => match op {
            HandleOp::Duplicate => Option::Some(c + 1),
            HandleOp::Discard => if c == 1 {
                Option::None
            } else {
                Option::Some(c - 1)
            },
        },
        Option::None => Option::None,
    }
}

/// The object's state after all of `ops`, applied in order.
pub open spec fn run_handle_ops(state: Option<int>, ops: Seq<HandleOp>) -> Option<int>
    decreases ops.len(),
{
    if ops.len() == 0 {
        state
    } else {
        handle_step(run_handle_ops(state, ops.drop_last()), ops.last())
    }
}

proof fn lemma_run_handle_ops(c: int, ops: Seq<HandleOp>)
    requires
        c >= 1,
        forall|i: int|
            0 <= i < ops.len() ==> c + duplicate_steps(#[trigger] ops.take(i)) - discard_steps(
                ops.take(i),
            ) >= 1,
    ensures
        c + duplicate_steps(ops) - discard_steps(ops) >= 0,
        c + duplicate_steps(ops) - discard_steps(ops) >= 1 ==> run_handle_ops(
            Option::Some(c),
            ops,
        ) == Option::Some(c + duplicate_steps(ops) - discard_steps(ops)),
        c + duplicate_steps(ops) - discard_steps(ops) == 0 ==> run_handle_ops(
            Option::Some(c),
            ops,
        ) is None,
    decreases ops.len(),
{
    if ops.len() == 0 {
    } else {
        let front = ops.drop_last();
        assert forall|i: int| 0 <= i < front.len() implies c + duplicate_steps(
            #[trigger] front.take(i),
        ) - discard_steps(front.take(i)) >= 1 by {
            assert(front.take(i) =~= ops.take(i));
        }
        lemma_run_handle_ops(c, front);
        assert(front =~= ops.take(ops.len() - 1));
        let before = c + duplicate_steps(front) - discard_steps(front);
        assert(before >= 1);
        assert(run_handle_ops(Option::Some(c), front) == Option::Some(before));
    }
}

/// Every prefix of a valid sequence of handle steps is itself valid, so
/// the balance law below speaks of every point of a run, not only of its
/// end.
pub proof fn lemma_prefix_valid(ops: Seq<HandleOp>, i: int)
    requires
        ops_valid(ops),
        0 <= i <= ops.len(),
    ensures
        ops_valid(ops.take(i)),
{
    assert forall|j: int| 0 <= j < ops.take(i).len() implies counter_after(
        #[trigger] ops.take(i).take(j),
    ) >= 1 by {
        assert(ops.take(i).take(j) =~= ops.take(j));
    }
}

/// Law: starting from the one handle that construction returns, any valid
/// sequence of handle duplications and discards leaves the reference count
/// at 1 plus the duplications minus the discards; the container stays live
/// while that balance is positive and is destroyed exactly at the step that
/// brings it to 0.  Applied to a prefix — valid by the lemma above — the
/// same holds at every intermediate point.
pub proof fn lemma_handle_balance(ops: Seq<HandleOp>)
    requires
        ops_valid(ops),
    ensures
        counter_after(ops) >= 0,
        counter_after(ops) >= 1 ==> run_handle_ops(Option::Some(1), ops) == Option::Some(
            counter_after(ops),
        ),
        counter_after(ops) == 0 ==> run_handle_ops(Option::Some(1), ops) is None,
{
    lemma_run_handle_ops(1, ops);
}

/// `n` duplications followed by `n` discards.
pub open spec fn balanced_ops(n: nat) -> Seq<HandleOp> {
    Seq::new(
        2 * n,
        |i: int|
            if i < n {
                HandleOp::Duplicate
            } else {
                HandleOp::Discard
            },
    )
}

proof fn lemma_balanced_prefix(n: nat, i: int)
    requires
        0 <= i <= 2 * n,
    ensures
        duplicate_steps(balanced_ops(n).take(i)) == if i <= n {
            i
        } else {
            n as int
        },
        discard_steps(balanced_ops(n).take(i)) == if i <= n {
            0
        } else {
            i - n
        },
    decreases i,
{
    if i > 0 {
        lemma_balanced_prefix(n, i - 1);
        assert(balanced_ops(n).take(i).drop_last() =~= balanced_ops(n).take(i - 1));
    }
}

/// Law: any number of duplications, matched by the same number of discards,
/// leaves the object alive with its count back at 1 — nothing is lost and
/// nothing is destroyed early.
pub proof fn lemma_balanced_ops_leave_one(n: nat)
    ensures
        counter_after(balanced_ops(n)) == 1,
        run_handle_ops(Option::Some(1), balanced_ops(n)) == Option::Some(1int),
{
    assert forall|i: int| 0 <= i < balanced_ops(n).len() implies counter_after(
        #[trigger] balanced_ops(n).take(i),
    ) >= 1 by {
        lemma_balanced_prefix(n, i);
    }
    lemma_balanced_prefix(n, 2 * n as int);
    assert(balanced_ops(n).take(2 * n as int) =~= balanced_ops(n));
    lemma_handle_balance(balanced_ops(n));
}

/// A heap that kept every slot's liveness and count is still well formed:
/// trampolines that only touch payloads cannot break the counting
/// invariant.
pub proof fn lemma_wf_preserved<C, R>(a: Heap<C, R>, b: Heap<C, R>)
    requires
        a.wf(),
        b.same_counts(a),
    ensures
        b.wf(),
{
    assert forall|p: int| b.live(p) implies #[trigger] b.count(p) >= 1 by {
        assert(a.live(p));
        assert(a.count(p) >= 1);
    }
}

} // verus!

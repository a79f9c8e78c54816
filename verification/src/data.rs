//! The equality contract every piece of application state implements.
//!
//! `same` is the single source of truth for "does this subtree need a
//! repaint or an update": a widget wrapper compares the old and new value of
//! its sub-state and skips work when they are logically equal. The logical
//! relation `eqv` must be an equivalence, and the executable test returns
//! exactly it — no false positives, so change detection never loses a real
//! change.

use vstd::prelude::*;

verus! {

/// The capability application state must offer: a fast structural equality
/// test, together with the logical relation it decides.
pub trait Data: Sized {
    /// The logical equality the executable test decides.
    spec fn eqv(&self, other: &Self) -> bool;

    /// The executable equality test; decides `eqv` exactly.
    fn same(&self, other: &Self) -> (r: bool)
        ensures
            r == self.eqv(other),
    ;

    /// A copy logically equal to the original; lens and prism wrappers use
    /// it to take the scratch snapshot that the child mutates.
    fn dup(&self) -> (r: Self)
        ensures
            r.eqv(self),
            self.eqv(&r),
    ;

    /// `eqv` is reflexive.
    proof fn eqv_reflexive(&self)
        ensures
            self.eqv(self),
    ;

    /// `eqv` is symmetric.
    proof fn eqv_symmetric(&self, other: &Self)
        ensures
            self.eqv(other) == other.eqv(self),
    ;

    /// `eqv` is transitive.
    proof fn eqv_transitive(&self, b: &Self, c: &Self)
        requires
            self.eqv(b),
            b.eqv(c),
        ensures
            self.eqv(c),
    ;
}

impl Data for bool {
    open spec fn eqv(&self, other: &Self) -> bool {
        self == other
    }

    fn same(&self, other: &Self) -> (r: bool)
        ensures
            r == self.eqv(other),
    {
        *self == *other
    }

    fn dup(&self) -> (r: Self)
        ensures
            r.eqv(self),
            self.eqv(&r),
    {
        *self
    }

    proof fn eqv_reflexive(&self) {
    }

    proof fn eqv_symmetric(&self, other: &Self) {
    }

    proof fn eqv_transitive(&self, b: &Self, c: &Self) {
    }
}

impl Data for i64 {
    open spec fn eqv(&self, other: &Self) -> bool {
        self == other
    }

    fn same(&self, other: &Self) -> (r: bool)
        ensures
            r == self.eqv(other),
    {
        *self == *other
    }

    fn dup(&self) -> (r: Self)
        ensures
            r.eqv(self),
            self.eqv(&r),
    {
        *self
    }

    proof fn eqv_reflexive(&self) {
    }

    proof fn eqv_symmetric(&self, other: &Self) {
    }

    proof fn eqv_transitive(&self, b: &Self, c: &Self) {
    }
}

impl Data for u64 {
    open spec fn eqv(&self, other: &Self) -> bool {
        self == other
    }

    fn same(&self, other: &Self) -> (r: bool)
        ensures
            r == self.eqv(other),
    {
        *self == *other
    }

    fn dup(&self) -> (r: Self)
        ensures
            r.eqv(self),
            self.eqv(&r),
    {
        *self
    }

    proof fn eqv_reflexive(&self) {
    }

    proof fn eqv_symmetric(&self, other: &Self) {
    }

    proof fn eqv_transitive(&self, b: &Self, c: &Self) {
    }
}

impl Data for usize {
    open spec fn eqv(&self, other: &Self) -> bool {
        self == other
    }

    fn same(&self, other: &Self) -> (r: bool)
        ensures
            r == self.eqv(other),
    {
        *self == *other
    }

    fn dup(&self) -> (r: Self)
        ensures
            r.eqv(self),
            self.eqv(&r),
    {
        *self
    }

    proof fn eqv_reflexive(&self) {
    }

    proof fn eqv_symmetric(&self, other: &Self) {
    }

    proof fn eqv_transitive(&self, b: &Self, c: &Self) {
    }
}

impl Data for String {
    /// Strings are equal by contents, whatever their allocation.
    open spec fn eqv(&self, other: &Self) -> bool {
        self@ == other@
    }

    fn same(&self, other: &Self) -> (r: bool)
        ensures
            r == self.eqv(other),
    {
        self.eq(other)
    }

    fn dup(&self) -> (r: Self)
        ensures
            r.eqv(self),
            self.eqv(&r),
    {
        self.clone()
    }

    proof fn eqv_reflexive(&self) {
    }

    proof fn eqv_symmetric(&self, other: &Self) {
    }

    proof fn eqv_transitive(&self, b: &Self, c: &Self) {
    }
}

impl Data for () {
    open spec fn eqv(&self, other: &Self) -> bool {
        true
    }

    fn same(&self, other: &Self) -> (r: bool)
        ensures
            r == self.eqv(other),
    {
        true
    }

    fn dup(&self) -> (r: Self)
        ensures
            r.eqv(self),
            self.eqv(&r),
    {
    }

    proof fn eqv_reflexive(&self) {
    }

    proof fn eqv_symmetric(&self, other: &Self) {
    }

    proof fn eqv_transitive(&self, b: &Self, c: &Self) {
    }
}

impl<A: Data, B: Data> Data for (A, B) {
    /// Pairs compare pointwise: both components must be logically equal.
    open spec fn eqv(&self, other: &Self) -> bool {
        self.0.eqv(&other.0) && self.1.eqv(&other.1)
    }

    fn same(&self, other: &Self) -> (r: bool)
        ensures
            r == self.eqv(other),
    {
        self.0.same(&other.0) && self.1.same(&other.1)
    }

    fn dup(&self) -> (r: Self)
        ensures
            r.eqv(self),
            self.eqv(&r),
    {
        (self.0.dup(), self.1.dup())
    }

    proof fn eqv_reflexive(&self) {
        self.0.eqv_reflexive();
        self.1.eqv_reflexive();
    }

    proof fn eqv_symmetric(&self, other: &Self) {
        self.0.eqv_symmetric(&other.0);
        self.1.eqv_symmetric(&other.1);
    }

    proof fn eqv_transitive(&self, b: &Self, c: &Self) {
        self.0.eqv_transitive(&b.0, &c.0);
        self.1.eqv_transitive(&b.1, &c.1);
    }
}

impl<A: Data> Data for Vec<A> {
    /// Lists compare pointwise: same length, all elements logically equal.
    open spec fn eqv(&self, other: &Self) -> bool {
        self@.len() == other@.len() && (forall|i: int|
            0 <= i < self@.len() ==> #[trigger] self@[i].eqv(&other@[i]))
    }

    fn same(&self, other: &Self) -> (r: bool)
        ensures
            r == self.eqv(other),
    {
        if self.len() != other.len() {
            return false;
        }
        let mut i: usize = 0;
        while i < self.len()
            invariant
                i <= self@.len(),
                self@.len() == other@.len(),
                forall|j: int| 0 <= j < i ==> #[trigger] self@[j].eqv(&other@[j]),
            decreases self@.len() - i,
        {
            if !self[i].same(&other[i]) {
                return false;
            }
            i = i + 1;
        }
        true
    }

    fn dup(&self) -> (r: Self)
        ensures
            r.eqv(self),
            self.eqv(&r),
    {
        let mut r: Vec<A> = Vec::new();
        let mut i: usize = 0;
        while i < self.len()
            invariant
                i <= self@.len(),
                r@.len() == i,
                forall|j: int| 0 <= j < i ==> #[trigger] r@[j].eqv(&self@[j]),
                forall|j: int| 0 <= j < i ==> #[trigger] self@[j].eqv(&r@[j]),
            decreases self@.len() - i,
        {
            r.push(self[i].dup());
            i = i + 1;
        }
        r
    }

    proof fn eqv_reflexive(&self) {
        assert forall|i: int| 0 <= i < self@.len() implies #[trigger] self@[i].eqv(&self@[i]) by {
            self@[i].eqv_reflexive();
        }
    }

    proof fn eqv_symmetric(&self, other: &Self) {
        if self.eqv(other) {
            assert forall|i: int| 0 <= i < other@.len() implies #[trigger] other@[i].eqv(
                &self@[i],
            ) by {
                self@[i].eqv_symmetric(&other@[i]);
            }
        }
        if other.eqv(self) {
            assert forall|i: int| 0 <= i < self@.len() implies #[trigger] self@[i].eqv(
                &other@[i],
            ) by {
                self@[i].eqv_symmetric(&other@[i]);
            }
        }
    }

    proof fn eqv_transitive(&self, b: &Self, c: &Self) {
        assert forall|i: int| 0 <= i < self@.len() implies #[trigger] self@[i].eqv(&c@[i]) by {
            self@[i].eqv_transitive(&b@[i], &c@[i]);
        }
    }
}

/// Law: the equality test is reflexive — `same(x, x)` holds for every `x`.
pub proof fn lemma_eqv_reflexive<T: Data>(x: &T)
    ensures
        x.eqv(x),
{
    x.eqv_reflexive();
}

/// Law: equality of pairs is pointwise — a pair test succeeds exactly when
/// both component tests succeed.
pub proof fn lemma_pair_eqv_pointwise<A: Data, B: Data>(p: &(A, B), q: &(A, B))
    ensures
        p.eqv(q) == (p.0.eqv(&q.0) && p.1.eqv(&q.1)),
{
}

} // verus!

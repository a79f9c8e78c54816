//! Lenses: total, composable two-way projections between a whole state
//! type and a stored part of it, and the wrapper widget that embeds a
//! child built for the part into a tree whose ambient state is the whole.
//!
//! The mutating path follows the snapshot protocol everywhere: project a
//! snapshot, hand the child a scratch copy, compare afterwards with the
//! equality contract, and write back if and only if the child made a
//! logical change. An unchanged projection is never written back, so
//! ancestor change detection stays quiet on no-ops.

use core::marker::PhantomData;

use vstd::prelude::*;

use crate::constraints::BoxConstraints;
use crate::ctx::{BaseState, EventCtx, LifeCycleCtx, UpdateCtx};
use crate::data::Data;
use crate::env::Env;
use crate::event::{Action, Event, LifeCycle};
use crate::geom::Size;
use crate::paint::PaintCtx;
use crate::widget::Widget;

verus! {

/// A total two-way projection from `T` onto a stored part `U`.
///
/// The executable accessors decide the spec-level `view` and `put_spec` up
/// to the equality contract, and every lens proves the lens laws: reading
/// after writing yields what was written, writing back what was read
/// changes nothing, and both operations respect logical equality.
pub trait Lens<T: Data, U: Data> {
    /// The projected part.
    spec fn view(&self, t: T) -> U;

    /// The whole after the part is replaced.
    spec fn put_spec(&self, t: T, u: U) -> T;

    /// Read the part out of the whole.
    fn get(&self, t: &T) -> (u: U)
        ensures
            u.eqv(&self.view(*t)),
    ;

    /// Write a part back into the whole.
    fn put(&self, t: &mut T, u: U)
        ensures
            final(t).eqv(&self.put_spec(*old(t), u)),
    ;

    /// Law: reading after writing yields what was written.
    proof fn law_get_put(&self, t: T, u: U)
        ensures
            self.view(self.put_spec(t, u)).eqv(&u),
    ;

    /// Law: writing back what was read changes nothing.
    proof fn law_put_get(&self, t: T)
        ensures
            self.put_spec(t, self.view(t)).eqv(&t),
    ;

    /// Law: projection respects logical equality.
    proof fn law_view_congruent(&self, t1: T, t2: T)
        requires
            t1.eqv(&t2),
        ensures
            self.view(t1).eqv(&self.view(t2)),
    ;

    /// Law: writing respects logical equality.
    proof fn law_put_congruent(&self, t1: T, t2: T, u1: U, u2: U)
        requires
            t1.eqv(&t2),
            u1.eqv(&u2),
        ensures
            self.put_spec(t1, u1).eqv(&self.put_spec(t2, u2)),
    ;
}

/// The stored-field lens onto the first component of a pair.
pub struct First;

/// The stored-field lens onto the second component of a pair.
pub struct Second;

impl<A: Data, B: Data> Lens<(A, B), A> for First {
    open spec fn view(&self, t: (A, B)) -> A {
        t.0
    }

    open spec fn put_spec(&self, t: (A, B), u: A) -> (A, B) {
        (u, t.1)
    }

    fn get(&self, t: &(A, B)) -> (u: A) {
        t.0.dup()
    }

    fn put(&self, t: &mut (A, B), u: A) {
        t.0 = u;
        proof {
            t.eqv_reflexive();
        }
    }

    proof fn law_get_put(&self, t: (A, B), u: A) {
        u.eqv_reflexive();
    }

    proof fn law_put_get(&self, t: (A, B)) {
        t.eqv_reflexive();
    }

    proof fn law_view_congruent(&self, t1: (A, B), t2: (A, B)) {
    }

    proof fn law_put_congruent(&self, t1: (A, B), t2: (A, B), u1: A, u2: A) {
    }
}

impl<A: Data, B: Data> Lens<(A, B), B> for Second {
    open spec fn view(&self, t: (A, B)) -> B {
        t.1
    }

    open spec fn put_spec(&self, t: (A, B), u: B) -> (A, B) {
        (t.0, u)
    }

    fn get(&self, t: &(A, B)) -> (u: B) {
        t.1.dup()
    }

    fn put(&self, t: &mut (A, B), u: B) {
        t.1 = u;
        proof {
            t.eqv_reflexive();
        }
    }

    proof fn law_get_put(&self, t: (A, B), u: B) {
        u.eqv_reflexive();
    }

    proof fn law_put_get(&self, t: (A, B)) {
        t.eqv_reflexive();
    }

    proof fn law_view_congruent(&self, t1: (A, B), t2: (A, B)) {
    }

    proof fn law_put_congruent(&self, t1: (A, B), t2: (A, B), u1: B, u2: B) {
    }
}

/// Lens composition: a lens of a lens, reaching through a middle type.
pub struct Then<L1, L2, M> {
    pub first: L1,
    pub second: L2,
    pub phantom: PhantomData<M>,
}

impl<L1, L2, M> Then<L1, L2, M> {
    pub fn new(first: L1, second: L2) -> (l: Then<L1, L2, M>)
        ensures
            l.first == first,
            l.second == second,
    {
        Then { first, second, phantom: PhantomData }
    }
}

impl<T: Data, M: Data, U: Data, L1: Lens<T, M>, L2: Lens<M, U>> Lens<T, U> for Then<L1, L2, M> {
    open spec fn view(&self, t: T) -> U {
        self.second.view(self.first.view(t))
    }

    open spec fn put_spec(&self, t: T, u: U) -> T {
        self.first.put_spec(t, self.second.put_spec(self.first.view(t), u))
    }

    fn get(&self, t: &T) -> (u: U) {
        let m = self.first.get(t);
        let u = self.second.get(&m);
        proof {
            self.second.law_view_congruent(m, self.first.view(*t));
            u.eqv_transitive(&self.second.view(m), &self.second.view(self.first.view(*t)));
        }
        u
    }

    fn put(&self, t: &mut T, u: U) {
        let mut m = self.first.get(t);
        let ghost m0 = m;
        self.second.put(&mut m, u);
        let ghost m1 = m;
        let ghost t0 = *t;
        self.first.put(t, m);
        proof {
            let target_m = self.second.put_spec(self.first.view(t0), u);
            u.eqv_reflexive();
            self.second.law_put_congruent(m0, self.first.view(t0), u, u);
            m1.eqv_transitive(&self.second.put_spec(m0, u), &target_m);
            t0.eqv_reflexive();
            self.first.law_put_congruent(t0, t0, m1, target_m);
            final(t).eqv_transitive(
                &self.first.put_spec(t0, m1),
                &self.first.put_spec(t0, target_m),
            );
        }
    }

    proof fn law_get_put(&self, t: T, u: U) {
        let x = self.second.put_spec(self.first.view(t), u);
        self.first.law_get_put(t, x);
        self.second.law_view_congruent(self.first.view(self.first.put_spec(t, x)), x);
        self.second.law_get_put(self.first.view(t), u);
        self.second.view(self.first.view(self.first.put_spec(t, x))).eqv_transitive(
            &self.second.view(x),
            &u,
        );
    }

    proof fn law_put_get(&self, t: T) {
        let x = self.second.put_spec(self.first.view(t), self.second.view(self.first.view(t)));
        self.second.law_put_get(self.first.view(t));
        t.eqv_reflexive();
        self.first.law_put_congruent(t, t, x, self.first.view(t));
        self.first.law_put_get(t);
        self.first.put_spec(t, x).eqv_transitive(
            &self.first.put_spec(t, self.first.view(t)),
            &t,
        );
    }

    proof fn law_view_congruent(&self, t1: T, t2: T) {
        self.first.law_view_congruent(t1, t2);
        self.second.law_view_congruent(self.first.view(t1), self.first.view(t2));
    }

    proof fn law_put_congruent(&self, t1: T, t2: T, u1: U, u2: U) {
        self.first.law_view_congruent(t1, t2);
        self.second.law_put_congruent(self.first.view(t1), self.first.view(t2), u1, u2);
        self.first.law_put_congruent(
            t1,
            t2,
            self.second.put_spec(self.first.view(t1), u1),
            self.second.put_spec(self.first.view(t2), u2),
        );
    }
}

/// A widget embedding a child built for sub-state `U` into a tree whose
/// ambient state is `T`, through a lens.
///
/// The mutating path is the snapshot protocol: the child works on a
/// scratch copy, and the copy is written back if and only if it is no
/// longer logically equal to the snapshot. The event contract records the
/// consequence: the ambient state either stays exactly as it was, or
/// becomes the lens write-back of some value that logically differs from
/// the current projection — a no-op child call never dirties the whole.
pub struct LensWrap<U, L, W> {
    pub child: W,
    pub lens: L,
    pub phantom: PhantomData<U>,
}

impl<U, L, W> LensWrap<U, L, W> {
    pub fn new(child: W, lens: L) -> (w: LensWrap<U, L, W>)
        ensures
            w.child == child,
            w.lens == lens,
    {
        LensWrap { child, lens, phantom: PhantomData }
    }
}

impl<T: Data, U: Data, L: Lens<T, U>, W: Widget<U>> Widget<T> for LensWrap<U, L, W> {
    fn event(&mut self, ctx: &mut EventCtx, event: &Event, data: &mut T, env: &Env) -> (action:
        Option<Action>)
        ensures
            final(self).lens == old(self).lens,
            (*final(data) == *old(data)) || (exists|u: U|
                {
                    &&& !u.eqv(&old(self).lens.view(*old(data)))
                    &&& (*final(data)).eqv(&#[trigger] old(self).lens.put_spec(*old(data), u))
                }),
    {
        let ghost t0 = *data;
        let snapshot = self.lens.get(data);
        let mut scratch = snapshot.dup();
        let action = self.child.event(ctx, event, &mut scratch, env);
        if !scratch.same(&snapshot) {
            let ghost scr = scratch;
            proof {
                let v = self.lens.view(t0);
                if scr.eqv(&v) {
                    snapshot.eqv_symmetric(&v);
                    scr.eqv_transitive(&v, &snapshot);
                }
            }
            self.lens.put(data, scratch);
            proof {
                assert(!scr.eqv(&old(self).lens.view(t0)) && (*data).eqv(
                    &old(self).lens.put_spec(t0, scr),
                ));
            }
        }
        action
    }

    fn layout(&mut self, bc: &BoxConstraints, data: &T, env: &Env) -> (size: Size) {
        let u = self.lens.get(data);
        self.child.layout(bc, &u, env)
    }

    fn paint(&mut self, ctx: &mut PaintCtx, base: &BaseState, data: &T, env: &Env) {
        let u = self.lens.get(data);
        self.child.paint(ctx, base, &u, env);
    }

    fn update(&mut self, ctx: &mut UpdateCtx, old_data: Option<&T>, data: &T, env: &Env)
        ensures
            final(self).lens == old(self).lens,
            old_data matches Some(od) ==> (old(self).lens.view(*od).eqv(
                &old(self).lens.view(*data),
            ) ==> final(self).child == old(self).child && *final(ctx) == *old(ctx)),
    {
        match old_data {
            Some(od) => {
                let old_u = self.lens.get(od);
                let new_u = self.lens.get(data);
                proof {
                    let vo = self.lens.view(*od);
                    let vn = self.lens.view(*data);
                    if vo.eqv(&vn) {
                        old_u.eqv_transitive(&vo, &vn);
                        new_u.eqv_symmetric(&vn);
                        old_u.eqv_transitive(&vn, &new_u);
                    }
                }
                if !old_u.same(&new_u) {
                    self.child.update(ctx, Some(&old_u), &new_u, env);
                }
            },
            None => {
                let new_u = self.lens.get(data);
                self.child.update(ctx, None, &new_u, env);
            },
        }
    }

    fn lifecycle(&mut self, ctx: &mut LifeCycleCtx, event: &LifeCycle, data: &T, env: &Env) {
        let u = self.lens.get(data);
        self.child.lifecycle(ctx, event, &u, env);
    }
}

/// The state a pair projection leaves behind: each component is written
/// back through its own lens only if the scratch value logically differs
/// from the current projection, so touching one component never writes the
/// other.
pub open spec fn pair_outcome<
    T: Data,
    U1: Data,
    U2: Data,
    L1: Lens<T, U1>,
    L2: Lens<T, U2>,
>(l1: L1, l2: L2, t: T, s1: U1, s2: U2) -> T {
    let c1 = !s1.eqv(&l1.view(t));
    let c2 = !s2.eqv(&l2.view(t));
    if c1 && c2 {
        l2.put_spec(l1.put_spec(t, s1), s2)
    } else if c1 {
        l1.put_spec(t, s1)
    } else if c2 {
        l2.put_spec(t, s2)
    } else {
        t
    }
}

/// A widget projecting `(U1, U2)` out of `T` through two independent
/// lenses, with nested snapshots and per-component write-back, each gated
/// by its own equality check.
pub struct PairWrap<U1, U2, L1, L2, W> {
    pub child: W,
    pub lens1: L1,
    pub lens2: L2,
    pub phantom: PhantomData<(U1, U2)>,
}

impl<U1, U2, L1, L2, W> PairWrap<U1, U2, L1, L2, W> {
    pub fn new(child: W, lens1: L1, lens2: L2) -> (w: PairWrap<U1, U2, L1, L2, W>)
        ensures
            w.child == child,
            w.lens1 == lens1,
            w.lens2 == lens2,
    {
        PairWrap { child, lens1, lens2, phantom: PhantomData }
    }
}

impl<
    T: Data,
    U1: Data,
    U2: Data,
    L1: Lens<T, U1>,
    L2: Lens<T, U2>,
    W: Widget<(U1, U2)>,
> Widget<T> for PairWrap<U1, U2, L1, L2, W> {
    fn event(&mut self, ctx: &mut EventCtx, event: &Event, data: &mut T, env: &Env) -> (action:
        Option<Action>)
        ensures
            final(self).lens1 == old(self).lens1,
            final(self).lens2 == old(self).lens2,
            (*final(data) == *old(data)) || (exists|s1: U1, s2: U2|
                {
                    &&& (!s1.eqv(&old(self).lens1.view(*old(data))) || !s2.eqv(
                        &old(self).lens2.view(*old(data)),
                    ))
                    &&& (*final(data)).eqv(
                        &#[trigger] pair_outcome(
                            old(self).lens1,
                            old(self).lens2,
                            *old(data),
                            s1,
                            s2,
                        ),
                    )
                }),
    {
        let ghost t0 = *data;
        let snap1 = self.lens1.get(data);
        let snap2 = self.lens2.get(data);
        let mut scratch: (U1, U2) = (snap1.dup(), snap2.dup());
        let action = self.child.event(ctx, event, &mut scratch, env);
        let (s1, s2) = scratch;
        let changed1 = !s1.same(&snap1);
        let changed2 = !s2.same(&snap2);
        let ghost g1 = s1;
        let ghost g2 = s2;
        proof {
            // The runtime gates coincide with logical change of the
            // projections.
            let v1 = self.lens1.view(t0);
            let v2 = self.lens2.view(t0);
            if g1.eqv(&v1) {
                snap1.eqv_symmetric(&v1);
                g1.eqv_transitive(&v1, &snap1);
            }
            if g1.eqv(&snap1) {
                g1.eqv_transitive(&snap1, &v1);
            }
            if g2.eqv(&v2) {
                snap2.eqv_symmetric(&v2);
                g2.eqv_transitive(&v2, &snap2);
            }
            if g2.eqv(&snap2) {
                g2.eqv_transitive(&snap2, &v2);
            }
        }
        if changed1 {
            self.lens1.put(data, s1);
        }
        let ghost t1 = *data;
        if changed2 {
            self.lens2.put(data, s2);
        }
        proof {
            let l1 = old(self).lens1;
            let l2 = old(self).lens2;
            if changed1 && changed2 {
                g2.eqv_reflexive();
                l2.law_put_congruent(t1, l1.put_spec(t0, g1), g2, g2);
                (*data).eqv_transitive(
                    &l2.put_spec(t1, g2),
                    &l2.put_spec(l1.put_spec(t0, g1), g2),
                );
            }
            if changed1 || changed2 {
                assert((*data).eqv(&pair_outcome(l1, l2, t0, g1, g2)));
            }
        }
        action
    }

    fn layout(&mut self, bc: &BoxConstraints, data: &T, env: &Env) -> (size: Size) {
        let u: (U1, U2) = (self.lens1.get(data), self.lens2.get(data));
        self.child.layout(bc, &u, env)
    }

    fn paint(&mut self, ctx: &mut PaintCtx, base: &BaseState, data: &T, env: &Env) {
        let u: (U1, U2) = (self.lens1.get(data), self.lens2.get(data));
        self.child.paint(ctx, base, &u, env);
    }

    fn update(&mut self, ctx: &mut UpdateCtx, old_data: Option<&T>, data: &T, env: &Env) {
        match old_data {
            Some(od) => {
                let old_u: (U1, U2) = (self.lens1.get(od), self.lens2.get(od));
                let new_u: (U1, U2) = (self.lens1.get(data), self.lens2.get(data));
                if !old_u.same(&new_u) {
                    self.child.update(ctx, Some(&old_u), &new_u, env);
                }
            },
            None => {
                let new_u: (U1, U2) = (self.lens1.get(data), self.lens2.get(data));
                self.child.update(ctx, None, &new_u, env);
            },
        }
    }

    fn lifecycle(&mut self, ctx: &mut LifeCycleCtx, event: &LifeCycle, data: &T, env: &Env) {
        let u: (U1, U2) = (self.lens1.get(data), self.lens2.get(data));
        self.child.lifecycle(ctx, event, &u, env);
    }
}

/// Law: the lens round trip — projecting, replacing the projected value by
/// `v`, and reading again yields `v`, for every lawful lens.
pub proof fn lemma_lens_round_trip<T: Data, U: Data, L: Lens<T, U>>(l: &L, t: T, v: U)
    ensures
        l.view(l.put_spec(t, v)).eqv(&v),
{
    l.law_get_put(t, v);
}

/// Law: writing through the first-component lens replaces exactly that
/// component and leaves the sibling untouched.
pub proof fn lemma_first_put_exact<A: Data, B: Data>(l: &First, t: (A, B), v: A)
    ensures
        Lens::<(A, B), A>::put_spec(l, t, v) == (v, t.1),
{
}

/// Law: writing through the second-component lens replaces exactly that
/// component and leaves the sibling untouched.
pub proof fn lemma_second_put_exact<A: Data, B: Data>(l: &Second, t: (A, B), v: B)
    ensures
        Lens::<(A, B), B>::put_spec(l, t, v) == (t.0, v),
{
}

} // verus!

//! A widget that adapts data into something its child can use, through a
//! partial two-way projection.

use core::marker::PhantomData;

use vstd::prelude::*;

use crate::constraints::BoxConstraints;
use crate::ctx::{BaseState, EventCtx, LifeCycleCtx, UpdateCtx};
use crate::data::Data;
use crate::env::Env;
use crate::event::{Action, Event, LifeCycle};
use crate::geom::Size;
use crate::paint::PaintCtx;
use crate::widget::Widget;

verus! {

/// A partial two-way projection: `up` always computes the child-facing
/// value from the ambient state, `down` attempts to rebuild the ambient
/// state from a possibly invalid edited value and may refuse.
pub trait Prism<T: Data, U: Data> {
    /// The child-facing value.
    spec fn up_spec(&self, t: T) -> U;

    /// The rebuilt ambient state, absent when the edited value is invalid.
    spec fn down_spec(&self, u: U) -> Option<T>;

    /// Compute the child-facing value.
    fn up(&self, t: &T) -> (u: U)
        ensures
            u.eqv(&self.up_spec(*t)),
    ;

    /// Attempt to rebuild the ambient state.
    fn down(&self, u: U) -> (r: Option<T>)
        ensures
            match self.down_spec(u) {
                Some(t) => r matches Some(rt) && rt.eqv(&t),
                None => r is None,
            },
    ;

    /// Law: the projection respects logical equality.
    proof fn law_up_congruent(&self, t1: T, t2: T)
        requires
            t1.eqv(&t2),
        ensures
            self.up_spec(t1).eqv(&self.up_spec(t2)),
    ;
}

/// A widget that accepts a prism to adapt data for its child.
///
/// The mutating path is the snapshot protocol: the child edits a scratch
/// copy of the projected value; if the edit is a logical change, `down`
/// tries to rebuild the ambient state, and an invalid edit is discarded —
/// the ambient state then keeps its previous value bit for bit.
pub struct Adapt<U, P, W> {
    pub child: W,
    pub prism: P,
    pub phantom: PhantomData<U>,
}

impl<U, P, W> Adapt<U, P, W> {
    pub fn new(child: W, prism: P) -> (a: Adapt<U, P, W>)
        ensures
            a.child == child,
            a.prism == prism,
    {
        Adapt { child, prism, phantom: PhantomData }
    }
}

impl<T: Data, U: Data, P: Prism<T, U>, W: Widget<U>> Widget<T> for Adapt<U, P, W> {
    fn event(&mut self, ctx: &mut EventCtx, event: &Event, data: &mut T, env: &Env) -> (action:
        Option<Action>)
        ensures
            final(self).prism == old(self).prism,
            (*final(data) == *old(data)) || (exists|u: U|
                {
                    &&& !u.eqv(&old(self).prism.up_spec(*old(data)))
                    &&& (#[trigger] old(self).prism.down_spec(u)) matches Some(t)
                        && (*final(data)).eqv(&t)
                }),
    {
        let ghost t0 = *data;
        let snapshot = self.prism.up(data);
        let mut scratch = snapshot.dup();
        let action = self.child.event(ctx, event, &mut scratch, env);
        if !scratch.same(&snapshot) {
            let ghost scr = scratch;
            proof {
                let v = self.prism.up_spec(t0);
                if scr.eqv(&v) {
                    snapshot.eqv_symmetric(&v);
                    scr.eqv_transitive(&v, &snapshot);
                }
            }
            match self.prism.down(scratch) {
                Some(t) => {
                    *data = t;
                    proof {
                        assert(!scr.eqv(&old(self).prism.up_spec(t0)));
                        assert(old(self).prism.down_spec(scr) matches Some(ti)
                            && (*data).eqv(&ti));
                    }
                },
                None => {},
            }
        }
        action
    }

    fn layout(&mut self, bc: &BoxConstraints, data: &T, env: &Env) -> (size: Size) {
        let u = self.prism.up(data);
        self.child.layout(bc, &u, env)
    }

    fn paint(&mut self, ctx: &mut PaintCtx, base: &BaseState, data: &T, env: &Env) {
        let u = self.prism.up(data);
        self.child.paint(ctx, base, &u, env);
    }

    fn update(&mut self, ctx: &mut UpdateCtx, old_data: Option<&T>, data: &T, env: &Env)
        ensures
            final(self).prism == old(self).prism,
            old_data matches Some(od) ==> (old(self).prism.up_spec(*od).eqv(
                &old(self).prism.up_spec(*data),
            ) ==> final(self).child == old(self).child && *final(ctx) == *old(ctx)),
    {
        match old_data {
            Some(od) => {
                let old_u = self.prism.up(od);
                let new_u = self.prism.up(data);
                proof {
                    let vo = self.prism.up_spec(*od);
                    let vn = self.prism.up_spec(*data);
                    if vo.eqv(&vn) {
                        old_u.eqv_transitive(&vo, &vn);
                        new_u.eqv_symmetric(&vn);
                        old_u.eqv_transitive(&vn, &new_u);
                    }
                }
                if !old_u.same(&new_u) {
                    self.child.update(ctx, Some(&old_u), &new_u, env);
                }
            },
            None => {
                let new_u = self.prism.up(data);
                self.child.update(ctx, None, &new_u, env);
            },
        }
    }

    fn lifecycle(&mut self, ctx: &mut LifeCycleCtx, event: &LifeCycle, data: &T, env: &Env) {
        let u = self.prism.up(data);
        self.child.lifecycle(ctx, event, &u, env);
    }
}

} // verus!

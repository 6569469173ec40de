//! The render context of the software backend: a `raqote` target to draw
//! into and the stack of saved drawing states.

use piet::kurbo::Affine;
use raqote::DrawTarget;
use vstd::prelude::*;

use crate::affine::{affine_bits, all_numbers, compose, identity, identity_bits, product_bits};
use crate::color::{alpha, blue, green, red, split_rgba};
use crate::error::Error;
use crate::image::argb;
use crate::target::{clear_target, target_clips, target_pixels};

verus! {

struct CtxState {
    transform: Affine,
}

/// The drawing states that a context has saved, the current one on top.
///
/// A live context always has a current state; only `finish` takes the last
/// one away.
pub struct StateStack {
    states: Vec<CtxState>,
}

impl StateStack {
    /// The transforms of the states, oldest first, the current one last.
    pub closed spec fn transforms(&self) -> Seq<Affine> {
        self.states@.map_values(|s: CtxState| s.transform)
    }

    /// The number of states on the stack.
    pub fn depth(&self) -> (n: usize)
        ensures
            n == self.transforms().len(),
    {
        self.states.len()
    }
}

/// Restoring after a save gives back the states that were there before the
/// save, and the save itself leaves the current transform as it is.
pub proof fn lemma_restore_undoes_save(before: Seq<Affine>)
    requires
        before.len() > 0,
    ensures
        before.push(before.last()).last() == before.last(),
        before.push(before.last()).len() > 1,
        before.push(before.last()).drop_last() == before,
{
    assert(before.push(before.last()).drop_last() =~= before);
}

/// The text factory of the software backend.
pub struct RaqoteText;

/// A render context that draws into a `raqote` target.
pub struct RaqoteRenderContext<'a> {
    /// The target that this context draws into.
    pub draw_target: &'a mut DrawTarget,
    /// The saved drawing states.
    pub ctx_stack: StateStack,
    pub text: RaqoteText,
}

impl<'a> RaqoteRenderContext<'a> {
    /// A context on `draw_target` with one state, whose transform is the
    /// identity.
    pub fn new(draw_target: &'a mut DrawTarget) -> (ctx: RaqoteRenderContext<'a>)
        ensures
            ctx.ctx_stack.transforms().len() == 1,
            affine_bits(ctx.ctx_stack.transforms()[0]) == identity_bits(),
            *ctx.draw_target == *old(draw_target),
            *final(ctx.draw_target) == *final(draw_target),
    {
        let mut states: Vec<CtxState> = Vec::new();
        states.push(CtxState { transform: identity() });
        RaqoteRenderContext { draw_target, ctx_stack: StateStack { states }, text: RaqoteText }
    }

    /// The transform of the current state.
    pub fn current_transform(&self) -> (t: Affine)
        requires
            self.ctx_stack.transforms().len() > 0,
        ensures
            t == self.ctx_stack.transforms().last(),
    {
        self.ctx_stack.states[self.ctx_stack.states.len() - 1].transform
    }

    fn pop_state(&mut self)
        ensures
            final(self).ctx_stack.transforms() == if old(self).ctx_stack.transforms().len() > 0 {
                old(self).ctx_stack.transforms().drop_last()
            } else {
                old(self).ctx_stack.transforms()
            },
            final(self).draw_target == old(self).draw_target,
    {
        self.ctx_stack.states.pop();
    }

    /// Reports an error of an earlier drawing operation; this backend has
    /// none to report.
    pub fn status(&mut self) -> (r: Result<(), Error>)
        ensures
            r.is_ok(),
            *final(self) == *old(self),
    {
        Ok(())
    }

    /// Fills the target with the colour `rgba`. With no clip pushed on the
    /// target every pixel becomes that colour, alpha in the top byte.
    pub fn clear(&mut self, rgba: u32)
        ensures
            final(self).ctx_stack == old(self).ctx_stack,
            *final(final(self).draw_target) == *final(old(self).draw_target),
            target_clips(*final(self).draw_target) == target_clips(*old(self).draw_target),
            target_pixels(*final(self).draw_target).len() == target_pixels(
                *old(self).draw_target,
            ).len(),
            target_clips(*old(self).draw_target) == 0 ==> target_pixels(*final(self).draw_target)
                == Seq::new(
                target_pixels(*old(self).draw_target).len(),
                |i: int| argb(alpha(rgba), red(rgba), green(rgba), blue(rgba)),
            ),
    {
        let (r, g, b, a) = split_rgba(rgba);
        clear_target(self.draw_target, r, g, b, a);
    }

    /// Saves the current state: a copy of it becomes the new current state.
    pub fn save(&mut self) -> (r: Result<(), Error>)
        requires
            old(self).ctx_stack.transforms().len() > 0,
        ensures
            r.is_ok(),
            final(self).ctx_stack.transforms() == old(self).ctx_stack.transforms().push(
                old(self).ctx_stack.transforms().last(),
            ),
            final(self).draw_target == old(self).draw_target,
    {
        let new_state = CtxState { transform: self.current_transform() };
        self.ctx_stack.states.push(new_state);
        Ok(())
    }

    /// Goes back to the state that the last unrestored `save` saved.
    ///
    /// Fails with [`Error::StackUnbalance`], and changes nothing, exactly
    /// when no saved state is left. After a success the transform of the
    /// target is to be set to `current_transform`.
    pub fn restore(&mut self) -> (r: Result<(), Error>)
        ensures
            old(self).ctx_stack.transforms().len() <= 1 ==> {
                &&& r == Err::<(), Error>(Error::StackUnbalance)
                &&& *final(self) == *old(self)
            },
            old(self).ctx_stack.transforms().len() > 1 ==> {
                &&& r.is_ok()
                &&& final(self).ctx_stack.transforms() == old(
                    self,
                ).ctx_stack.transforms().drop_last()
            },
            final(self).draw_target == old(self).draw_target,
    {
        if self.ctx_stack.states.len() <= 1 {
            return Err(Error::StackUnbalance);
        }
        self.pop_state();
        Ok(())
    }

    /// Ends the drawing: takes the last state away.
    ///
    /// Fails with [`Error::StackUnbalance`], and changes nothing, exactly
    /// when the number of states is not one, that is when a `save` was
    /// not restored or the context is finished already.
    pub fn finish(&mut self) -> (r: Result<(), Error>)
        ensures
            old(self).ctx_stack.transforms().len() != 1 ==> {
                &&& r == Err::<(), Error>(Error::StackUnbalance)
                &&& *final(self) == *old(self)
            },
            old(self).ctx_stack.transforms().len() == 1 ==> {
                &&& r.is_ok()
                &&& final(self).ctx_stack.transforms().len() == 0
            },
            final(self).draw_target == old(self).draw_target,
    {
        if self.ctx_stack.states.len() != 1 {
            return Err(Error::StackUnbalance);
        }
        self.pop_state();
        Ok(())
    }

    /// Makes `transform` the transform of the current state; the saved
    /// states below it stay as they are.
    pub fn set_transform(&mut self, transform: Affine)
        requires
            old(self).ctx_stack.transforms().len() > 0,
        ensures
            final(self).ctx_stack.transforms() == old(self).ctx_stack.transforms().drop_last().push(
                transform,
            ),
            final(self).draw_target == old(self).draw_target,
    {
        let top: usize = self.ctx_stack.states.len() - 1;
        self.ctx_stack.states.set(top, CtxState { transform });
        assert(self.ctx_stack.transforms() =~= old(self).ctx_stack.transforms().drop_last().push(
            transform,
        ));
    }

    /// Applies `transform` before the transform of the current state: the
    /// product of the two becomes the current transform, and the saved
    /// states below stay as they are. The product is computed in doubles;
    /// its coefficients are stated where all of them are numbers. The
    /// transform of the target is to be set to `current_transform`
    /// afterwards.
    pub fn transform(&mut self, transform: Affine)
        requires
            old(self).ctx_stack.transforms().len() > 0,
        ensures
            final(self).ctx_stack.transforms().len() == old(self).ctx_stack.transforms().len(),
            final(self).ctx_stack.transforms().drop_last() == old(
                self,
            ).ctx_stack.transforms().drop_last(),
            all_numbers(affine_bits(final(self).ctx_stack.transforms().last())) ==> affine_bits(
                final(self).ctx_stack.transforms().last(),
            ) == product_bits(
                affine_bits(old(self).ctx_stack.transforms().last()),
                affine_bits(transform),
            ),
            final(self).draw_target == old(self).draw_target,
    {
        let product = compose(self.current_transform(), transform);
        self.set_transform(product);
        assert(final(self).ctx_stack.transforms().drop_last() =~= old(
            self,
        ).ctx_stack.transforms().drop_last());
    }

    /// The text factory of this context.
    pub fn text(&mut self) -> (t: &mut RaqoteText)
        ensures
            *t == old(self).text,
            final(self).text == *final(t),
            final(self).ctx_stack == old(self).ctx_stack,
            final(self).draw_target == old(self).draw_target,
    {
        &mut self.text
    }
}

} // verus!

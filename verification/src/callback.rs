//! A wake routine paired with the context value it is called with.

use vstd::prelude::*;

verus! {

/// A wake routine together with the context value it is called with.
///
/// Every value of this type can be invoked: the routine accepts the context.
pub struct Callback<F: Fn(C), C> {
    func: F,
    ctx: C,
}

impl<F: Fn(C) + Copy, C: Copy> Copy for Callback<F, C> {

}

impl<F: Fn(C) + Copy, C: Copy> Clone for Callback<F, C> {
    fn clone(&self) -> (copy: Self)
        ensures
            copy == *self,
    {
        *self
    }
}

impl<F: Fn(C), C> Callback<F, C> {
    #[verifier::type_invariant]
    spec fn callable(self) -> bool {
        call_requires(self.func, (self.ctx,))
    }

    /// The callback made of `func` and `ctx`.
    pub closed spec fn of(func: F, ctx: C) -> Self {
        Callback { func, ctx }
    }

    /// The routine.
    pub closed spec fn func(self) -> F {
        self.func
    }

    /// The context that the routine is called with.
    pub closed spec fn ctx(self) -> C {
        self.ctx
    }

    /// A callback is its routine and its context, and nothing else.
    pub proof fn lemma_parts(func: F, ctx: C)
        ensures
            Self::of(func, ctx).func() == func,
            Self::of(func, ctx).ctx() == ctx,
            forall|cb: Self| cb.func() == func && cb.ctx() == ctx ==> cb == Self::of(func, ctx),
    {
    }

    /// Pairs a routine with the context it is to be called with.
    pub fn new(func: F, ctx: C) -> (cb: Self)
        requires
            call_requires(func, (ctx,)),
        ensures
            cb == Self::of(func, ctx),
            cb.func() == func,
            cb.ctx() == ctx,
    {
        Callback { func, ctx }
    }
}

impl<F: Fn(C), C: Copy> Callback<F, C> {
    /// Calls the routine with its context, once.
    pub fn invoke(&self)
        ensures
            call_ensures(self.func(), (self.ctx(),), ()),
    {
        proof {
            use_type_invariant(self);
        }
        (self.func)(self.ctx)
    }
}

} // verus!

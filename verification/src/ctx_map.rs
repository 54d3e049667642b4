use vstd::prelude::*;

use crate::context::ContextIterator;
use crate::pull::DoubleEndedPull;
use crate::pull::ExactSizePull;
use crate::pull::FusedPull;
use crate::pull::PullIterator;
use crate::views::ctx_fn_app;
use crate::views::ctx_fn_callable;
use crate::views::ctx_fn_det;

verus! {

/// Apply a function to the context of an iterator.
///
/// The item stream of the wrapped iterator passes through unchanged, in both
/// directions, with its exact remaining count. Only the exposed context
/// differs: it is a view derived from the wrapped context, recomputed by the
/// remap function on every query and never cached, so it always reflects the
/// wrapped context.
#[verifier::reject_recursive_types(O)]
pub struct CtxMap<I, F, O> {
    iter: I,
    map: F,
    view: core::marker::PhantomData<O>,
}

impl<I: Clone, F: Clone, O> Clone for CtxMap<I, F, O> {
    fn clone(&self) -> Self {
        CtxMap { iter: self.iter.clone(), map: self.map.clone(), view: core::marker::PhantomData }
    }
}

impl<I, F, O> CtxMap<I, F, O> where I: ContextIterator, F: Fn(&I::Context) -> &O {
    /// Wrap `iter`, exposing the view `map` derives from its context.
    pub fn new(iter: I, map: F) -> (r: CtxMap<I, F, O>)
        ensures
            iter.wf() && ctx_fn_callable(map) && ctx_fn_det(map) ==> r.wf(),
            r.remaining() == iter.remaining(),
            r.ctx() == ctx_fn_app(map, iter.ctx()),
    {
        CtxMap { iter, map, view: core::marker::PhantomData }
    }
}

impl<I, F, O> PullIterator for CtxMap<I, F, O> where I: ContextIterator, F: Fn(&I::Context) -> &O {
    type Item = I::Item;

    closed spec fn wf(&self) -> bool {
        self.iter.wf() && ctx_fn_callable(self.map) && ctx_fn_det(self.map)
    }

    closed spec fn remaining(&self) -> Seq<I::Item> {
        self.iter.remaining()
    }

    closed spec fn same_config(&self, later: &Self) -> bool {
        self.iter.same_config(&later.iter) && self.map == later.map
    }

    proof fn lemma_same_config_refl(a: &Self) {
        I::lemma_same_config_refl(&a.iter);
    }

    proof fn lemma_same_config_trans(a: &Self, b: &Self, c: &Self) {
        I::lemma_same_config_trans(&a.iter, &b.iter, &c.iter);
    }

    proof fn lemma_wf_len(a: &Self) {
        I::lemma_wf_len(&a.iter);
    }

    fn next(&mut self) -> (r: Option<I::Item>)
        ensures
            final(self).wf(),
            old(self).same_config(final(self)),
            old(self).remaining().len() == 0 ==> r is None && final(self).remaining() == old(self).remaining(),
            old(self).remaining().len() > 0 ==> r == Some(old(self).remaining().first())
                && final(self).remaining() == old(self).remaining().drop_first(),
    {
        let r = self.iter.next();
        proof {
            assert(old(self).same_config(&*self));
        }
        r
    }

    fn size_hint(&self) -> (h: (usize, Option<usize>))
        ensures
            h.0 <= self.remaining().len(),
            h.1 matches Some(u) ==> self.remaining().len() <= u,
    {
        self.iter.size_hint()
    }

    fn count(self) -> (n: usize)
        ensures
            n == self.remaining().len(),
    {
        self.iter.count()
    }
}

impl<I, F, O> ContextIterator for CtxMap<I, F, O> where I: ContextIterator, F: Fn(&I::Context) -> &O {
    type Context = O;

    closed spec fn ctx(&self) -> O {
        ctx_fn_app(self.map, self.iter.ctx())
    }

    proof fn lemma_ctx_same_config(pre: &Self, post: &Self) {
        I::lemma_ctx_same_config(&pre.iter, &post.iter);
    }

    fn context(&self) -> (c: &O)
        ensures
            *c == self.ctx(),
    {
        (self.map)(self.iter.context())
    }
}

impl<I, F, O> DoubleEndedPull for CtxMap<I, F, O> where
    I: DoubleEndedPull + ContextIterator,
    F: Fn(&I::Context) -> &O,
 {
    fn next_back(&mut self) -> (r: Option<I::Item>)
        ensures
            final(self).wf(),
            old(self).same_config(final(self)),
            old(self).remaining().len() == 0 ==> r is None && final(self).remaining() == old(self).remaining(),
            old(self).remaining().len() > 0 ==> r == Some(old(self).remaining().last())
                && final(self).remaining() == old(self).remaining().drop_last(),
    {
        let r = self.iter.next_back();
        proof {
            assert(old(self).same_config(&*self));
        }
        r
    }
}

impl<I, F, O> ExactSizePull for CtxMap<I, F, O> where
    I: ExactSizePull + ContextIterator,
    F: Fn(&I::Context) -> &O,
 {
    fn len(&self) -> (n: usize)
        ensures
            n == self.remaining().len(),
    {
        self.iter.len()
    }
}

impl<I, F, O> FusedPull for CtxMap<I, F, O> where
    I: FusedPull + ContextIterator,
    F: Fn(&I::Context) -> &O,
 {

}

} // verus!

use vstd::prelude::*;

use crate::ctx_map::CtxMap;
use crate::filter::FilterCtx;
use crate::filter_map::FilterMapCtx;
use crate::map::MapCtx;
use crate::pull::DoubleEndedPull;
use crate::pull::ExactSizePull;
use crate::pull::FusedPull;
use crate::pull::PullIterator;
use crate::views::ctx_fn_app;
use crate::views::ctx_fn_callable;
use crate::views::ctx_fn_det;
use crate::views::filter_mapped_view;
use crate::views::filtered_view;
use crate::views::map_fn_callable;
use crate::views::map_fn_det;
use crate::views::mapped_view;
use crate::views::pred_fn_callable;
use crate::views::pred_fn_det;

verus! {

/// A pull iterator carrying a read-only context.
///
/// `ctx()` is the mathematical view of the context the iterator currently
/// exposes. The context is immutable for the whole lifetime of the chain:
/// pulling items never changes it, which is what `lemma_ctx_same_config`
/// obliges every implementation to prove.
pub trait ContextIterator: PullIterator {
    /// The context type.
    type Context;

    /// The context the iterator exposes.
    spec fn ctx(&self) -> Self::Context;

    /// Advancing the chain never changes the exposed context.
    proof fn lemma_ctx_same_config(pre: &Self, post: &Self)
        requires
            pre.same_config(post),
        ensures
            pre.ctx() == post.ctx(),
    ;

    /// Get the context.
    fn context(&self) -> (c: &Self::Context)
        requires
            self.wf(),
        ensures
            *c == self.ctx(),
    ;
}

/// The adaptors available on every context-carrying iterator.
///
/// These stand apart from [`ContextIterator`] because each adaptor's
/// contract speaks of the adaptor type, whose own iterator implementation
/// bounds on `ContextIterator` in turn; the blanket implementation below
/// still puts the methods on every context-carrying iterator.
pub trait ContextIteratorExt: ContextIterator {
    /// Apply a map to the context of the iterator.
    ///
    /// The item stream is unchanged; the exposed context becomes the view
    /// `map` derives from this iterator's context, recomputed on every
    /// query.
    fn context_map<O, F: Fn(&Self::Context) -> &O>(self, map: F) -> (r: CtxMap<Self, F, O>)
        ensures
            self.wf() && ctx_fn_callable(map) && ctx_fn_det(map) ==> r.wf(),
            r.remaining() == self.remaining(),
            r.ctx() == ctx_fn_app(map, self.ctx()),
    {
        CtxMap::new(self, map)
    }

    /// Apply a map to each element in the iterator.
    ///
    /// The item stream becomes the wrapped stream with every item replaced
    /// by `map`'s value for it under the context; the context is unchanged.
    fn map_with_context<O, F: Fn(Self::Item, &Self::Context) -> O>(self, map: F) -> (r: MapCtx<
        Self,
        F,
        O,
    >)
        ensures
            self.wf() && map_fn_callable(map) && map_fn_det(map) ==> r.wf(),
            r.remaining() == mapped_view(self.remaining(), map, self.ctx()),
            r.ctx() == self.ctx(),
    {
        MapCtx::new(self, map)
    }

    /// Apply a filter over the elements of the iterator.
    ///
    /// The item stream becomes the subsequence of items `filter` accepts
    /// under the context, in their original order; the context is unchanged.
    fn filter_with_context<F: Fn(&Self::Item, &Self::Context) -> bool>(self, filter: F) -> (r:
        FilterCtx<Self, F>)
        ensures
            self.wf() && pred_fn_callable(filter) && pred_fn_det(filter) ==> r.wf(),
            r.remaining() == filtered_view(self.remaining(), filter, self.ctx()),
            r.ctx() == self.ctx(),
    {
        FilterCtx::new(self, filter)
    }

    /// Apply a filter over the elements of the iterator, mapping the kept
    /// elements at the same time.
    ///
    /// The item stream becomes the present values of `filter`, for exactly
    /// the items it accepts under the context, in their original order; the
    /// context is unchanged.
    fn filter_map_with_context<O, F: Fn(Self::Item, &Self::Context) -> Option<O>>(
        self,
        filter: F,
    ) -> (r: FilterMapCtx<Self, F, O>)
        ensures
            self.wf() && map_fn_callable(filter) && map_fn_det(filter) ==> r.wf(),
            r.remaining() == filter_mapped_view(self.remaining(), filter, self.ctx()),
            r.ctx() == self.ctx(),
    {
        FilterMapCtx::new(self, filter)
    }
}

impl<I: ContextIterator> ContextIteratorExt for I {

}

/// Map a function over each element in an iterator, passing a context to
/// each function call: the composite of attaching a context and mapping.
pub type MapWithCtx<I, Ctx, F, O> = MapCtx<WithCtx<I, Ctx>, F, O>;

/// Filter the elements of an iterator, passing a context to each function
/// call: the composite of attaching a context and filtering.
pub type FilterWithCtx<I, Ctx, F> = FilterCtx<WithCtx<I, Ctx>, F>;

/// Map a function over the elements of an iterator, simultaneously filtering
/// elements, passing a context to each function call: the composite of
/// attaching a context and filter-mapping.
pub type FilterMapWithCtx<I, Ctx, F, O> = FilterMapCtx<WithCtx<I, Ctx>, F, O>;

/// Extended pull iterator trait to allow adding context data.
///
/// This trait is automatically implemented for all pull iterators.
pub trait IntoContextIterator: PullIterator {
    /// Add read-only context to the iterator.
    ///
    /// The item stream is unchanged; the wrapper exposes the value supplied
    /// here as its context.
    fn with_context<Ctx>(self, context: Ctx) -> (r: WithCtx<Self, Ctx>)
        ensures
            self.wf() ==> r.wf(),
            r.remaining() == self.remaining(),
            r.ctx() == context,
    {
        WithCtx { iter: self, context }
    }
}

impl<I: PullIterator> IntoContextIterator for I {

}

/// Wrapper around an iterator adding context data.
///
/// Its items are those of the wrapped iterator, unchanged; its context is
/// the value supplied when the context was attached.
#[derive(Clone)]
pub struct WithCtx<I, Ctx> {
    iter: I,
    context: Ctx,
}

impl<I: PullIterator, Ctx> PullIterator for WithCtx<I, Ctx> {
    type Item = I::Item;

    closed spec fn wf(&self) -> bool {
        self.iter.wf()
    }

    closed spec fn remaining(&self) -> Seq<I::Item> {
        self.iter.remaining()
    }

    closed spec fn same_config(&self, later: &Self) -> bool {
        self.iter.same_config(&later.iter) && self.context == later.context
    }

    proof fn lemma_same_config_refl(a: &Self) {
        I::lemma_same_config_refl(&a.iter);
    }

    proof fn lemma_same_config_trans(a: &Self, b: &Self, c: &Self) {
        I::lemma_same_config_trans(&a.iter, &b.iter, &c.iter);
    }

    proof fn lemma_wf_len(a: &Self) {
        I::lemma_wf_len(&a.iter);
    }

    fn next(&mut self) -> (r: Option<I::Item>) {
        self.iter.next()
    }

    fn size_hint(&self) -> (h: (usize, Option<usize>))
        ensures
            h.0 == 0,
    {
        let h = self.iter.size_hint();
        (0, h.1)
    }

    fn count(self) -> (n: usize) {
        self.iter.count()
    }
}

impl<I: PullIterator, Ctx> ContextIterator for WithCtx<I, Ctx> {
    type Context = Ctx;

    closed spec fn ctx(&self) -> Ctx {
        self.context
    }

    proof fn lemma_ctx_same_config(pre: &Self, post: &Self) {
    }

    fn context(&self) -> (c: &Ctx) {
        &self.context
    }
}

impl<I: DoubleEndedPull, Ctx> DoubleEndedPull for WithCtx<I, Ctx> {
    fn next_back(&mut self) -> (r: Option<I::Item>) {
        self.iter.next_back()
    }
}

impl<I: ExactSizePull, Ctx> ExactSizePull for WithCtx<I, Ctx> {
    fn len(&self) -> (n: usize) {
        self.iter.len()
    }
}

impl<I: FusedPull, Ctx> FusedPull for WithCtx<I, Ctx> {

}

} // verus!

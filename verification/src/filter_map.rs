use vstd::prelude::*;

use crate::context::ContextIterator;
use crate::pull::DoubleEndedPull;
use crate::pull::FusedPull;
use crate::pull::PullIterator;
use crate::views::filter_mapped_view;
use crate::views::lemma_filter_mapped_len_bound;
use crate::views::lemma_filter_map_drop_first;
use crate::views::lemma_filter_map_drop_last;
use crate::views::map_fn_app;
use crate::views::map_fn_callable;
use crate::views::map_fn_det;

verus! {

/// Map a function over the elements of an iterator, simultaneously filtering
/// elements.
///
/// Each function call is passed the context of the iterator along with the
/// element. An absent result rejects the item; a present result contributes
/// its value to the stream, in the original relative order. The context is
/// exposed unchanged. As for the filter adaptor, the exact remaining count
/// of the wrapped stream is not inherited: only an upper bound survives.
#[derive(Clone)]
#[verifier::reject_recursive_types(O)]
pub struct FilterMapCtx<I, F, O> where I: ContextIterator, F: Fn(I::Item, &I::Context) -> Option<
    O,
> {
    iter: I,
    predicate: F,
}

impl<I, F, O> FilterMapCtx<I, F, O> where
    I: ContextIterator,
    F: Fn(I::Item, &I::Context) -> Option<O>,
 {
    /// Wrap `iter`, keeping the present values of `predicate`.
    pub fn new(iter: I, predicate: F) -> (r: FilterMapCtx<I, F, O>)
        ensures
            iter.wf() && map_fn_callable(predicate) && map_fn_det(predicate) ==> r.wf(),
            r.remaining() == filter_mapped_view(iter.remaining(), predicate, iter.ctx()),
            r.ctx() == iter.ctx(),
    {
        FilterMapCtx { iter, predicate }
    }
}

impl<I, F, O> PullIterator for FilterMapCtx<I, F, O> where
    I: ContextIterator,
    F: Fn(I::Item, &I::Context) -> Option<O>,
 {
    type Item = O;

    closed spec fn wf(&self) -> bool {
        self.iter.wf() && map_fn_callable(self.predicate) && map_fn_det(self.predicate)
    }

    closed spec fn remaining(&self) -> Seq<O> {
        filter_mapped_view(self.iter.remaining(), self.predicate, self.iter.ctx())
    }

    closed spec fn same_config(&self, later: &Self) -> bool {
        self.iter.same_config(&later.iter) && self.predicate == later.predicate
    }

    proof fn lemma_same_config_refl(a: &Self) {
        I::lemma_same_config_refl(&a.iter);
    }

    proof fn lemma_same_config_trans(a: &Self, b: &Self, c: &Self) {
        I::lemma_same_config_trans(&a.iter, &b.iter, &c.iter);
    }

    proof fn lemma_wf_len(a: &Self) {
        I::lemma_wf_len(&a.iter);
        lemma_filter_mapped_len_bound(a.iter.remaining(), a.predicate, a.iter.ctx());
    }

    fn next(&mut self) -> (r: Option<O>)
        ensures
            final(self).wf(),
            old(self).same_config(final(self)),
            old(self).remaining().len() == 0 ==> r is None && final(self).remaining() == old(self).remaining(),
            old(self).remaining().len() > 0 ==> r == Some(old(self).remaining().first())
                && final(self).remaining() == old(self).remaining().drop_first(),
    {
        proof {
            I::lemma_same_config_refl(&self.iter);
        }
        #[verifier::loop_isolation(false)]
        loop
            invariant
                self.wf(),
                old(self).same_config(&*self),
                self.remaining() == old(self).remaining(),
            decreases self.iter.remaining().len(),
        {
            let ghost pre = *self;
            let ghost s = pre.iter.remaining();
            let ghost c = pre.iter.ctx();
            let ghost g = |a: I::Item| map_fn_app(pre.predicate, a, c);
            match self.iter.next() {
                None => {
                    proof {
                        I::lemma_same_config_trans(&old(self).iter, &pre.iter, &self.iter);
                    }
                    return None;
                },
                Some(item) => {
                    let ghost pulled = item;
                    proof {
                        I::lemma_ctx_same_config(&pre.iter, &self.iter);
                        I::lemma_same_config_trans(&old(self).iter, &pre.iter, &self.iter);
                        lemma_filter_map_drop_first(s, g);
                    }
                    if let Some(elem) = (self.predicate)(item, self.iter.context()) {
                        proof {
                            assert(map_fn_app(pre.predicate, pulled, c) == Some(elem));
                            assert(self.remaining() =~= old(self).remaining().drop_first());
                        }
                        return Some(elem);
                    }
                    proof {
                        assert(map_fn_app(pre.predicate, pulled, c) is None);
                        assert(self.remaining() == old(self).remaining());
                    }
                },
            }
        }
    }

    fn size_hint(&self) -> (h: (usize, Option<usize>))
        ensures
            h.0 == 0,
            h.1 matches Some(u) ==> self.remaining().len() <= u,
    {
        proof {
            lemma_filter_mapped_len_bound(self.iter.remaining(), self.predicate, self.iter.ctx());
        }
        let h = self.iter.size_hint();
        (0, h.1)
    }

    /// Count the accepted items over the whole remaining stream, without
    /// materializing them: the dedicated bulk-count of the filter-map
    /// adaptor.
    ///
    /// The count pulls from the front, also on a double-ended chain; the
    /// result is the same either way, since every remaining item is
    /// consulted exactly once.
    fn count(self) -> (n: usize)
        ensures
            n == self.remaining().len(),
    {
        let ghost total = self.remaining();
        proof {
            Self::lemma_wf_len(&self);
        }
        let mut it = self;
        let mut n: usize = 0;
        proof {
            I::lemma_same_config_refl(&it.iter);
        }
        #[verifier::loop_isolation(false)]
        loop
            invariant
                it.wf(),
                n + it.remaining().len() == total.len(),
            decreases it.iter.remaining().len(),
        {
            let ghost pre = it;
            let ghost s = pre.iter.remaining();
            let ghost c = pre.iter.ctx();
            let ghost g = |a: I::Item| map_fn_app(pre.predicate, a, c);
            match it.iter.next() {
                None => {
                    return n;
                },
                Some(item) => {
                    let ghost pulled = item;
                    proof {
                        I::lemma_ctx_same_config(&pre.iter, &it.iter);
                        lemma_filter_map_drop_first(s, g);
                        lemma_filter_mapped_len_bound(s, pre.predicate, c);
                    }
                    let found = (it.predicate)(item, it.iter.context());
                    if found.is_some() {
                        proof {
                            assert(map_fn_app(pre.predicate, pulled, c) is Some);
                            assert(it.remaining() =~= pre.remaining().drop_first());
                        }
                        n = n + 1;
                    } else {
                        proof {
                            assert(map_fn_app(pre.predicate, pulled, c) is None);
                            assert(it.remaining() == pre.remaining());
                        }
                    }
                },
            }
        }
    }
}

impl<I, F, O> DoubleEndedPull for FilterMapCtx<I, F, O> where
    I: DoubleEndedPull + ContextIterator,
    F: Fn(I::Item, &I::Context) -> Option<O>,
 {
    fn next_back(&mut self) -> (r: Option<O>)
        ensures
            final(self).wf(),
            old(self).same_config(final(self)),
            old(self).remaining().len() == 0 ==> r is None && final(self).remaining() == old(self).remaining(),
            old(self).remaining().len() > 0 ==> r == Some(old(self).remaining().last())
                && final(self).remaining() == old(self).remaining().drop_last(),
    {
        proof {
            I::lemma_same_config_refl(&self.iter);
        }
        #[verifier::loop_isolation(false)]
        loop
            invariant
                self.wf(),
                old(self).same_config(&*self),
                self.remaining() == old(self).remaining(),
            decreases self.iter.remaining().len(),
        {
            let ghost pre = *self;
            let ghost s = pre.iter.remaining();
            let ghost c = pre.iter.ctx();
            let ghost g = |a: I::Item| map_fn_app(pre.predicate, a, c);
            match self.iter.next_back() {
                None => {
                    proof {
                        I::lemma_same_config_trans(&old(self).iter, &pre.iter, &self.iter);
                    }
                    return None;
                },
                Some(item) => {
                    let ghost pulled = item;
                    proof {
                        I::lemma_ctx_same_config(&pre.iter, &self.iter);
                        I::lemma_same_config_trans(&old(self).iter, &pre.iter, &self.iter);
                        lemma_filter_map_drop_last(s, g);
                    }
                    if let Some(elem) = (self.predicate)(item, self.iter.context()) {
                        proof {
                            assert(map_fn_app(pre.predicate, pulled, c) == Some(elem));
                            assert(self.remaining() =~= old(self).remaining().drop_last());
                        }
                        return Some(elem);
                    }
                    proof {
                        assert(map_fn_app(pre.predicate, pulled, c) is None);
                        assert(self.remaining() == old(self).remaining());
                    }
                },
            }
        }
    }
}

impl<I, F, O> FusedPull for FilterMapCtx<I, F, O> where
    I: FusedPull + ContextIterator,
    F: Fn(I::Item, &I::Context) -> Option<O>,
 {

}

impl<I, F, O> ContextIterator for FilterMapCtx<I, F, O> where
    I: ContextIterator,
    F: Fn(I::Item, &I::Context) -> Option<O>,
 {
    type Context = I::Context;

    closed spec fn ctx(&self) -> I::Context {
        self.iter.ctx()
    }

    proof fn lemma_ctx_same_config(pre: &Self, post: &Self) {
        I::lemma_ctx_same_config(&pre.iter, &post.iter);
    }

    fn context(&self) -> (c: &I::Context)
        ensures
            *c == self.ctx(),
    {
        self.iter.context()
    }
}

} // verus!

use vstd::prelude::*;

use crate::context::ContextIterator;
use crate::pull::DoubleEndedPull;
use crate::pull::FusedPull;
use crate::pull::PullIterator;
use crate::views::filtered_view;
use crate::views::lemma_filter_drop_first;
use crate::views::lemma_filter_drop_last;
use crate::views::lemma_filter_empty;
use crate::views::pred_fn_app;
use crate::views::pred_fn_callable;
use crate::views::pred_fn_det;

verus! {

/// Filter the elements of an iterator.
///
/// Each function call is passed the context of the iterator along with the
/// element. The item stream is the subsequence of the wrapped stream whose
/// items the predicate accepts, in their original order; the context is
/// exposed unchanged. The exact remaining count of the wrapped stream is not
/// inherited: rejected items are pulled and discarded, so only an upper
/// bound survives.
#[derive(Clone)]
pub struct FilterCtx<I, F> where I: ContextIterator, F: Fn(&I::Item, &I::Context) -> bool {
    iter: I,
    predicate: F,
}

impl<I, F> FilterCtx<I, F> where I: ContextIterator, F: Fn(&I::Item, &I::Context) -> bool {
    /// Wrap `iter`, keeping only the items `predicate` accepts.
    pub fn new(iter: I, predicate: F) -> (r: FilterCtx<I, F>)
        ensures
            iter.wf() && pred_fn_callable(predicate) && pred_fn_det(predicate) ==> r.wf(),
            r.remaining() == filtered_view(iter.remaining(), predicate, iter.ctx()),
            r.ctx() == iter.ctx(),
    {
        FilterCtx { iter, predicate }
    }
}

impl<I, F> PullIterator for FilterCtx<I, F> where
    I: ContextIterator,
    F: Fn(&I::Item, &I::Context) -> bool,
 {
    type Item = I::Item;

    closed spec fn wf(&self) -> bool {
        self.iter.wf() && pred_fn_callable(self.predicate) && pred_fn_det(self.predicate)
    }

    closed spec fn remaining(&self) -> Seq<I::Item> {
        filtered_view(self.iter.remaining(), self.predicate, self.iter.ctx())
    }

    closed spec fn same_config(&self, later: &Self) -> bool {
        self.iter.same_config(&later.iter) && self.predicate == later.predicate
    }

    proof fn lemma_same_config_refl(a: &Self) {
        I::lemma_same_config_refl(&a.iter);
    }

    proof fn lemma_same_config_trans(a: &Self, b: &Self, c: &Self) {
        I::lemma_same_config_trans(&a.iter, &b.iter, &c.iter);
    }

    proof fn lemma_wf_len(a: &Self) {
        I::lemma_wf_len(&a.iter);
        broadcast use Seq::lemma_filter_len;

    }

    fn next(&mut self) -> (r: Option<I::Item>)
        ensures
            final(self).wf(),
            old(self).same_config(final(self)),
            old(self).remaining().len() == 0 ==> r is None && final(self).remaining() == old(self).remaining(),
            old(self).remaining().len() > 0 ==> r == Some(old(self).remaining().first())
                && final(self).remaining() == old(self).remaining().drop_first(),
    {
        proof {
            I::lemma_same_config_refl(&self.iter);
        }
        #[verifier::loop_isolation(false)]
        loop
            invariant
                self.wf(),
                old(self).same_config(&*self),
                self.remaining() == old(self).remaining(),
            decreases self.iter.remaining().len(),
        {
            let ghost pre = *self;
            let ghost s = pre.iter.remaining();
            let ghost c = pre.iter.ctx();
            let ghost p = |a: I::Item| pred_fn_app(pre.predicate, a, c);
            match self.iter.next() {
                None => {
                    proof {
                        I::lemma_same_config_trans(&old(self).iter, &pre.iter, &self.iter);
                        lemma_filter_empty(s, p);
                    }
                    return None;
                },
                Some(item) => {
                    let ghost pulled = item;
                    proof {
                        I::lemma_ctx_same_config(&pre.iter, &self.iter);
                        I::lemma_same_config_trans(&old(self).iter, &pre.iter, &self.iter);
                        lemma_filter_drop_first(s, p);
                    }
                    if (self.predicate)(&item, self.iter.context()) {
                        proof {
                            assert(pred_fn_app(pre.predicate, pulled, c));
                            assert(self.remaining() =~= old(self).remaining().drop_first());
                        }
                        return Some(item);
                    }
                    proof {
                        assert(!pred_fn_app(pre.predicate, pulled, c));
                        assert(self.remaining() == old(self).remaining());
                    }
                },
            }
        }
    }

    fn size_hint(&self) -> (h: (usize, Option<usize>))
        ensures
            h.0 == 0,
            h.1 matches Some(u) ==> self.remaining().len() <= u,
    {
        proof {
            broadcast use Seq::lemma_filter_len;

        }
        let h = self.iter.size_hint();
        (0, h.1)
    }

    /// Count the accepted items over the whole remaining stream, without
    /// materializing them: the dedicated bulk-count of the filter adaptor.
    ///
    /// The count pulls from the front, also on a double-ended chain; the
    /// result is the same either way, since every remaining item is
    /// consulted exactly once.
    fn count(self) -> (n: usize)
        ensures
            n == self.remaining().len(),
    {
        let ghost total = self.remaining();
        proof {
            Self::lemma_wf_len(&self);
        }
        let mut it = self;
        let mut n: usize = 0;
        proof {
            I::lemma_same_config_refl(&it.iter);
        }
        #[verifier::loop_isolation(false)]
        loop
            invariant
                it.wf(),
                n + it.remaining().len() == total.len(),
            decreases it.iter.remaining().len(),
        {
            let ghost pre = it;
            let ghost s = pre.iter.remaining();
            let ghost c = pre.iter.ctx();
            let ghost p = |a: I::Item| pred_fn_app(pre.predicate, a, c);
            match it.iter.next() {
                None => {
                    proof {
                        lemma_filter_empty(s, p);
                    }
                    return n;
                },
                Some(item) => {
                    let ghost pulled = item;
                    proof {
                        I::lemma_ctx_same_config(&pre.iter, &it.iter);
                        lemma_filter_drop_first(s, p);
                        broadcast use Seq::lemma_filter_len;

                    }
                    let accepted = (it.predicate)(&item, it.iter.context());
                    if accepted {
                        proof {
                            assert(pred_fn_app(pre.predicate, pulled, c));
                            assert(it.remaining() =~= pre.remaining().drop_first());
                        }
                        n = n + 1;
                    } else {
                        proof {
                            assert(!pred_fn_app(pre.predicate, pulled, c));
                            assert(it.remaining() == pre.remaining());
                        }
                    }
                },
            }
        }
    }
}

impl<I, F> DoubleEndedPull for FilterCtx<I, F> where
    I: DoubleEndedPull + ContextIterator,
    F: Fn(&I::Item, &I::Context) -> bool,
 {
    fn next_back(&mut self) -> (r: Option<I::Item>)
        ensures
            final(self).wf(),
            old(self).same_config(final(self)),
            old(self).remaining().len() == 0 ==> r is None && final(self).remaining() == old(self).remaining(),
            old(self).remaining().len() > 0 ==> r == Some(old(self).remaining().last())
                && final(self).remaining() == old(self).remaining().drop_last(),
    {
        proof {
            I::lemma_same_config_refl(&self.iter);
        }
        #[verifier::loop_isolation(false)]
        loop
            invariant
                self.wf(),
                old(self).same_config(&*self),
                self.remaining() == old(self).remaining(),
            decreases self.iter.remaining().len(),
        {
            let ghost pre = *self;
            let ghost s = pre.iter.remaining();
            let ghost c = pre.iter.ctx();
            let ghost p = |a: I::Item| pred_fn_app(pre.predicate, a, c);
            match self.iter.next_back() {
                None => {
                    proof {
                        I::lemma_same_config_trans(&old(self).iter, &pre.iter, &self.iter);
                        lemma_filter_empty(s, p);
                    }
                    return None;
                },
                Some(item) => {
                    let ghost pulled = item;
                    proof {
                        I::lemma_ctx_same_config(&pre.iter, &self.iter);
                        I::lemma_same_config_trans(&old(self).iter, &pre.iter, &self.iter);
                        lemma_filter_drop_last(s, p);
                    }
                    if (self.predicate)(&item, self.iter.context()) {
                        proof {
                            assert(pred_fn_app(pre.predicate, pulled, c));
                            assert(self.remaining() =~= old(self).remaining().drop_last());
                        }
                        return Some(item);
                    }
                    proof {
                        assert(!pred_fn_app(pre.predicate, pulled, c));
                        assert(self.remaining() == old(self).remaining());
                    }
                },
            }
        }
    }
}

impl<I, F> FusedPull for FilterCtx<I, F> where
    I: FusedPull + ContextIterator,
    F: Fn(&I::Item, &I::Context) -> bool,
 {

}

impl<I, F> ContextIterator for FilterCtx<I, F> where
    I: ContextIterator,
    F: Fn(&I::Item, &I::Context) -> bool,
 {
    type Context = I::Context;

    closed spec fn ctx(&self) -> I::Context {
        self.iter.ctx()
    }

    proof fn lemma_ctx_same_config(pre: &Self, post: &Self) {
        I::lemma_ctx_same_config(&pre.iter, &post.iter);
    }

    fn context(&self) -> (c: &I::Context)
        ensures
            *c == self.ctx(),
    {
        self.iter.context()
    }
}

} // verus!

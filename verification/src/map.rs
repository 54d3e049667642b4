use vstd::prelude::*;

use crate::context::ContextIterator;
use crate::pull::DoubleEndedPull;
use crate::pull::ExactSizePull;
use crate::pull::FusedPull;
use crate::pull::PullIterator;
use crate::views::map_fn_app;
use crate::views::map_fn_callable;
use crate::views::map_fn_det;
use crate::views::mapped_view;

verus! {

/// Map a function over each element in the iterator.
///
/// Each function call is passed the context of the iterator along with the
/// element. The item stream is the wrapped stream with every item replaced
/// by the function's value for it; the context is exposed unchanged.
#[derive(Clone)]
#[verifier::reject_recursive_types(O)]
pub struct MapCtx<I, F, O> where I: ContextIterator, F: Fn(I::Item, &I::Context) -> O {
    iter: I,
    map: F,
}

impl<I, F, O> MapCtx<I, F, O> where I: ContextIterator, F: Fn(I::Item, &I::Context) -> O {
    /// Wrap `iter`, transforming each item by `map`.
    pub fn new(iter: I, map: F) -> (r: MapCtx<I, F, O>)
        ensures
            iter.wf() && map_fn_callable(map) && map_fn_det(map) ==> r.wf(),
            r.remaining() == mapped_view(iter.remaining(), map, iter.ctx()),
            r.ctx() == iter.ctx(),
    {
        MapCtx { iter, map }
    }
}

impl<I, F, O> PullIterator for MapCtx<I, F, O> where
    I: ContextIterator,
    F: Fn(I::Item, &I::Context) -> O,
 {
    type Item = O;

    closed spec fn wf(&self) -> bool {
        self.iter.wf() && map_fn_callable(self.map) && map_fn_det(self.map)
    }

    closed spec fn remaining(&self) -> Seq<O> {
        mapped_view(self.iter.remaining(), self.map, self.iter.ctx())
    }

    closed spec fn same_config(&self, later: &Self) -> bool {
        self.iter.same_config(&later.iter) && self.map == later.map
    }

    proof fn lemma_same_config_refl(a: &Self) {
        I::lemma_same_config_refl(&a.iter);
    }

    proof fn lemma_same_config_trans(a: &Self, b: &Self, c: &Self) {
        I::lemma_same_config_trans(&a.iter, &b.iter, &c.iter);
    }

    proof fn lemma_wf_len(a: &Self) {
        I::lemma_wf_len(&a.iter);
    }

    fn next(&mut self) -> (r: Option<O>)
        ensures
            final(self).wf(),
            old(self).same_config(final(self)),
            old(self).remaining().len() == 0 ==> r is None && final(self).remaining() == old(self).remaining(),
            old(self).remaining().len() > 0 ==> r == Some(old(self).remaining().first())
                && final(self).remaining() == old(self).remaining().drop_first(),
    {
        match self.iter.next() {
            None => {
                proof {
                    assert(old(self).same_config(&*self));
                }
                None
            },
            Some(item) => {
                let ghost pulled = item;
                proof {
                    assert(old(self).same_config(&*self));
                    I::lemma_ctx_same_config(&old(self).iter, &self.iter);
                }
                let o = (self.map)(item, self.iter.context());
                proof {
                    let c = old(self).iter.ctx();
                    assert(o == map_fn_app(self.map, pulled, c));
                    assert(self.remaining() =~= old(self).remaining().drop_first());
                    assert(old(self).remaining().first() == o);
                }
                Some(o)
            },
        }
    }

    fn size_hint(&self) -> (h: (usize, Option<usize>))
        ensures
            h.0 <= self.remaining().len(),
            h.1 matches Some(u) ==> self.remaining().len() <= u,
    {
        self.iter.size_hint()
    }
}

impl<I, F, O> DoubleEndedPull for MapCtx<I, F, O> where
    I: DoubleEndedPull + ContextIterator,
    F: Fn(I::Item, &I::Context) -> O,
 {
    fn next_back(&mut self) -> (r: Option<O>)
        ensures
            final(self).wf(),
            old(self).same_config(final(self)),
            old(self).remaining().len() == 0 ==> r is None && final(self).remaining() == old(self).remaining(),
            old(self).remaining().len() > 0 ==> r == Some(old(self).remaining().last())
                && final(self).remaining() == old(self).remaining().drop_last(),
    {
        match self.iter.next_back() {
            None => {
                proof {
                    assert(old(self).same_config(&*self));
                }
                None
            },
            Some(item) => {
                let ghost pulled = item;
                proof {
                    assert(old(self).same_config(&*self));
                    I::lemma_ctx_same_config(&old(self).iter, &self.iter);
                }
                let o = (self.map)(item, self.iter.context());
                proof {
                    let c = old(self).iter.ctx();
                    assert(o == map_fn_app(self.map, pulled, c));
                    assert(self.remaining() =~= old(self).remaining().drop_last());
                    assert(old(self).remaining().last() == o);
                }
                Some(o)
            },
        }
    }
}

impl<I, F, O> ExactSizePull for MapCtx<I, F, O> where
    I: ExactSizePull + ContextIterator,
    F: Fn(I::Item, &I::Context) -> O,
 {
    fn len(&self) -> (n: usize)
        ensures
            n == self.remaining().len(),
    {
        self.iter.len()
    }
}

impl<I, F, O> FusedPull for MapCtx<I, F, O> where
    I: FusedPull + ContextIterator,
    F: Fn(I::Item, &I::Context) -> O,
 {

}

impl<I, F, O> ContextIterator for MapCtx<I, F, O> where
    I: ContextIterator,
    F: Fn(I::Item, &I::Context) -> O,
 {
    type Context = I::Context;

    closed spec fn ctx(&self) -> I::Context {
        self.iter.ctx()
    }

    proof fn lemma_ctx_same_config(pre: &Self, post: &Self) {
        I::lemma_ctx_same_config(&pre.iter, &post.iter);
    }

    fn context(&self) -> (c: &I::Context)
        ensures
            *c == self.ctx(),
    {
        self.iter.context()
    }
}

} // verus!

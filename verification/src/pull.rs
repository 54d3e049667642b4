use vstd::prelude::*;

verus! {

/// A pull-based lazy sequence of items.
///
/// `remaining()` is the mathematical view of the iterator: the sequence of
/// items it will still produce, front to back. `next` removes the first
/// element of that view. Once the view is empty, `next` returns `None` and
/// leaves the view empty, so every well-formed pull iterator terminates
/// fused: after the first `None`, every later pull is `None` as well.
///
/// `same_config(later)` says that `later` differs from `self` at most in its
/// position inside the stream: every attached context and every stored
/// transformation function is unchanged. Pulling from either end keeps the
/// configuration.
pub trait PullIterator: Sized {
    /// The type of the items produced.
    type Item;

    /// The structural invariant that pulling preserves.
    spec fn wf(&self) -> bool;

    /// The items still to be produced, in order.
    spec fn remaining(&self) -> Seq<Self::Item>;

    /// `later` is the same iterator advanced some way: its configuration
    /// (attached contexts, transformation functions) is unchanged.
    spec fn same_config(&self, later: &Self) -> bool;

    /// An iterator that has not moved shares its own configuration.
    proof fn lemma_same_config_refl(a: &Self)
        ensures
            a.same_config(a),
    ;

    /// Sharing a configuration carries over any number of pulls.
    proof fn lemma_same_config_trans(a: &Self, b: &Self, c: &Self)
        requires
            a.same_config(b),
            b.same_config(c),
        ensures
            a.same_config(c),
    ;

    /// A well-formed iterator has a bounded number of items left: its
    /// sources draw from bounded memory, and wrapping never grows a stream.
    proof fn lemma_wf_len(a: &Self)
        requires
            a.wf(),
        ensures
            a.remaining().len() <= usize::MAX,
    ;

    /// Pull the next item from the front of the stream.
    fn next(&mut self) -> (r: Option<Self::Item>)
        requires
            old(self).wf(),
        ensures
            final(self).wf(),
            old(self).same_config(final(self)),
            old(self).remaining().len() == 0 ==> r is None && final(self).remaining()
                == old(self).remaining(),
            old(self).remaining().len() > 0 ==> r == Some(old(self).remaining().first())
                && final(self).remaining() == old(self).remaining().drop_first(),
    ;

    /// Bounds on the number of items left: a lower bound and an optional
    /// upper bound.
    fn size_hint(&self) -> (h: (usize, Option<usize>))
        requires
            self.wf(),
        ensures
            h.0 <= self.remaining().len(),
            h.1 matches Some(u) ==> self.remaining().len() <= u,
    ;

    /// Count the items left by pulling them all.
    fn count(self) -> (n: usize)
        requires
            self.wf(),
        ensures
            n == self.remaining().len(),
    {
        let ghost total = self.remaining();
        proof {
            Self::lemma_wf_len(&self);
        }
        let mut it = self;
        let mut n: usize = 0;
        #[verifier::loop_isolation(false)]
        loop
            invariant
                it.wf(),
                n + it.remaining().len() == total.len(),
            decreases it.remaining().len(),
        {
            match it.next() {
                Some(_) => {
                    n = n + 1;
                },
                None => {
                    return n;
                },
            }
        }
    }
}

/// A pull iterator that can also produce its items from the back.
///
/// `next_back` removes the last element of the same `remaining()` view that
/// `next` draws from, so the items seen by pulling everything from the back
/// are exactly the reverse of the items seen by pulling everything from the
/// front.
pub trait DoubleEndedPull: PullIterator {
    /// Pull the next item from the back of the stream.
    fn next_back(&mut self) -> (r: Option<Self::Item>)
        requires
            old(self).wf(),
        ensures
            final(self).wf(),
            old(self).same_config(final(self)),
            old(self).remaining().len() == 0 ==> r is None && final(self).remaining()
                == old(self).remaining(),
            old(self).remaining().len() > 0 ==> r == Some(old(self).remaining().last())
                && final(self).remaining() == old(self).remaining().drop_last(),
    ;
}

/// A pull iterator whose exact remaining count is known.
pub trait ExactSizePull: PullIterator {
    /// The exact number of items left.
    fn len(&self) -> (n: usize)
        requires
            self.wf(),
        ensures
            n == self.remaining().len(),
    ;
}

/// Marker for fused termination: once the iterator signals completion, it
/// keeps signalling completion.
///
/// The contract of [`PullIterator::next`] already forces this for every
/// well-formed pull iterator, since an empty `remaining()` view stays empty.
/// The marker records which wrappers inherit the capability from the
/// sequence they wrap.
pub trait FusedPull: PullIterator {}

} // verus!

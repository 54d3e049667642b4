use vstd::prelude::*;

use crate::pull::DoubleEndedPull;
use crate::pull::ExactSizePull;
use crate::pull::FusedPull;
use crate::pull::PullIterator;

verus! {

/// A half-open range of consecutive integers, as a pull-based sequence.
///
/// This is the simplest base sequence: it supports pulling from both ends,
/// reports its exact remaining count, and terminates fused.
#[derive(Clone)]
pub struct RangeIter {
    start: usize,
    end: usize,
}

impl RangeIter {
    /// Build the sequence `start, start + 1, ..., end - 1`.
    ///
    /// When `start >= end` the sequence is empty.
    pub fn new(start: usize, end: usize) -> (r: RangeIter)
        ensures
            r.wf(),
            r.remaining().len() == if start <= end {
                end - start
            } else {
                0int
            },
            forall|k: int| 0 <= k < r.remaining().len() ==> r.remaining()[k] == start + k,
    {
        let r = if start <= end {
            RangeIter { start, end }
        } else {
            RangeIter { start, end: start }
        };
        r
    }
}

impl PullIterator for RangeIter {
    type Item = usize;

    closed spec fn wf(&self) -> bool {
        self.start <= self.end
    }

    closed spec fn remaining(&self) -> Seq<usize> {
        Seq::new((self.end - self.start) as nat, |k: int| (self.start + k) as usize)
    }

    closed spec fn same_config(&self, later: &Self) -> bool {
        true
    }

    proof fn lemma_same_config_refl(a: &Self) {
    }

    proof fn lemma_same_config_trans(a: &Self, b: &Self, c: &Self) {
    }

    proof fn lemma_wf_len(a: &Self) {
    }

    fn next(&mut self) -> (r: Option<usize>) {
        if self.start < self.end {
            let v = self.start;
            self.start = self.start + 1;
            proof {
                assert(self.remaining() =~= old(self).remaining().drop_first());
                assert(old(self).same_config(&*self));
            }
            Some(v)
        } else {
            None
        }
    }

    fn size_hint(&self) -> (h: (usize, Option<usize>))
        ensures
            h.0 == self.remaining().len(),
            h.1 == Some((self.remaining().len() as usize)),
    {
        let n = self.end - self.start;
        (n, Some(n))
    }
}

impl DoubleEndedPull for RangeIter {
    fn next_back(&mut self) -> (r: Option<usize>) {
        if self.start < self.end {
            self.end = self.end - 1;
            proof {
                assert(self.remaining() =~= old(self).remaining().drop_last());
            }
            Some(self.end)
        } else {
            None
        }
    }
}

impl ExactSizePull for RangeIter {
    fn len(&self) -> (n: usize) {
        self.end - self.start
    }
}

impl FusedPull for RangeIter {

}

} // verus!

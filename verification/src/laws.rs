use vstd::prelude::*;

use crate::context::ContextIterator;
use crate::views::filter_mapped_view;
use crate::views::filtered_view;
use crate::views::lemma_filter_drop_last;
use crate::views::lemma_filter_empty;
use crate::views::lemma_filter_map_prepend;
use crate::views::map_fn_app;
use crate::views::mapped_view;
use crate::views::pred_fn_app;

verus! {

/// Context preservation: pulling any number of items from a chain, from
/// either end, never changes the exposed context.
///
/// Every pull's contract yields `same_config` between the state before and
/// the state after (chained pulls compose through `lemma_same_config_trans`),
/// and this law turns that into equality of the contexts.
pub proof fn lemma_context_preserved<I: ContextIterator>(pre: &I, post: &I)
    requires
        pre.same_config(post),
    ensures
        pre.ctx() == post.ctx(),
{
    I::lemma_ctx_same_config(pre, post);
}

/// Map size and order: a map-wrapped stream has exactly as many items as the
/// wrapped stream, and its item at every position is the transform's value
/// for the wrapped item at the same position, under the context.
pub proof fn lemma_mapped_view_correct<A, C, O, F: Fn(A, &C) -> O>(s: Seq<A>, f: F, c: C)
    ensures
        mapped_view(s, f, c).len() == s.len(),
        forall|i: int| 0 <= i < s.len() ==> mapped_view(s, f, c)[i] == map_fn_app(f, s[i], c),
{
}

/// Filter correctness: a filter-wrapped stream holds exactly the items the
/// predicate accepts under the context — every produced item is accepted,
/// every accepted item is produced — and it is never longer than the
/// wrapped stream.
pub proof fn lemma_filtered_view_correct<A, C, F: Fn(&A, &C) -> bool>(s: Seq<A>, f: F, c: C)
    ensures
        forall|i: int| 0 <= i < filtered_view(s, f, c).len() ==> pred_fn_app(
            f,
            #[trigger] filtered_view(s, f, c)[i],
            c,
        ),
        forall|i: int|
            0 <= i < s.len() && pred_fn_app(f, #[trigger] s[i], c) ==> filtered_view(
                s,
                f,
                c,
            ).contains(s[i]),
        filtered_view(s, f, c).len() <= s.len(),
{
    let p = |a: A| pred_fn_app(f, a, c);
    broadcast use Seq::lemma_filter_pred;
    broadcast use Seq::lemma_filter_contains;
    broadcast use Seq::lemma_filter_len;

    assert forall|i: int|
        0 <= i < s.len() && pred_fn_app(f, #[trigger] s[i], c) implies filtered_view(
        s,
        f,
        c,
    ).contains(s[i]) by {
        assert(p(s[i]));
    }
}

/// Filter-map equivalence over sequences: filter-mapping with `g` yields the
/// same sequence as first keeping the items where `g` is present and then
/// mapping each kept item to `g`'s value for it.
pub proof fn lemma_filter_map_equivalence<A, B>(s: Seq<A>, g: spec_fn(A) -> Option<B>)
    ensures
        s.filter_map(g) == s.filter(|a: A| g(a) is Some).map_values(|a: A| g(a).unwrap()),
    decreases s.len(),
{
    let keep = |a: A| g(a) is Some;
    let out = |a: A| g(a).unwrap();
    if s.len() == 0 {
        lemma_filter_empty(s, keep);
        assert(s.filter_map(g) =~= s.filter(keep).map_values(out));
    } else {
        let t = s.drop_last();
        let x = s.last();
        lemma_filter_map_equivalence(t, g);
        lemma_filter_drop_last(s, keep);
        match g(x) {
            Some(b) => {
                assert(s.filter(keep) == t.filter(keep).push(x));
                assert(s.filter(keep).map_values(out) =~= t.filter(keep).map_values(out).push(
                    out(x),
                ));
                assert(s.filter_map(g) =~= t.filter_map(g) + seq![b]);
                assert(t.filter_map(g).push(b) =~= t.filter_map(g) + seq![b]);
            },
            None => {
                assert(s.filter_map(g) == t.filter_map(g));
            },
        }
    }
}

/// Filter-map equivalence at the adaptor views: the stream of a filter-map
/// adaptor equals the stream of a filter that keeps the items whose
/// transform value is present, followed by a map that applies the transform
/// and takes the contained value.
pub proof fn lemma_filter_map_view_equivalence<A, C, O, F: Fn(A, &C) -> Option<O>>(
    s: Seq<A>,
    g: F,
    c: C,
)
    ensures
        filter_mapped_view(s, g, c) == s.filter(|a: A| map_fn_app(g, a, c) is Some).map_values(
            |a: A| map_fn_app(g, a, c).unwrap(),
        ),
{
    let gg = |a: A| map_fn_app(g, a, c);
    lemma_filter_map_equivalence(s, gg);
    assert((|a: A| gg(a) is Some) =~= (|a: A| map_fn_app(g, a, c) is Some));
    assert((|a: A| gg(a).unwrap()) =~= (|a: A| map_fn_app(g, a, c).unwrap()));
}

/// Reverse symmetry for map: mapping a reversed stream yields the reverse of
/// mapping the stream. Together with the pull contracts — `next` takes the
/// first of the view, `next_back` the last — the items pulled from the front
/// are the reverse of the items pulled from the back.
pub proof fn lemma_mapped_view_reverse<A, C, O, F: Fn(A, &C) -> O>(s: Seq<A>, f: F, c: C)
    ensures
        mapped_view(s.reverse(), f, c) == mapped_view(s, f, c).reverse(),
{
    assert(mapped_view(s.reverse(), f, c) =~= mapped_view(s, f, c).reverse());
}

/// Reverse symmetry for filter over sequences: filtering a reversed sequence
/// yields the reverse of filtering the sequence.
pub proof fn lemma_filter_reverse<A>(s: Seq<A>, p: spec_fn(A) -> bool)
    ensures
        s.reverse().filter(p) == s.filter(p).reverse(),
    decreases s.len(),
{
    if s.len() == 0 {
        lemma_filter_empty(s, p);
        lemma_filter_empty(s.reverse(), p);
        assert(s.reverse().filter(p) =~= s.filter(p).reverse());
    } else {
        let t = s.drop_last();
        let x = s.last();
        lemma_filter_reverse(t, p);
        lemma_filter_drop_last(s, p);
        assert(s.reverse() =~= seq![x] + t.reverse());
        t.reverse().lemma_filter_prepend(x, p);
        if p(x) {
            assert(t.filter(p).push(x).reverse() =~= seq![x] + t.filter(p).reverse());
            assert(s.reverse().filter(p) =~= seq![x] + t.filter(p).reverse());
        } else {
            assert(s.reverse().filter(p) =~= t.reverse().filter(p));
        }
    }
}

/// Reverse symmetry at the filter adaptor's view.
pub proof fn lemma_filtered_view_reverse<A, C, F: Fn(&A, &C) -> bool>(s: Seq<A>, f: F, c: C)
    ensures
        filtered_view(s.reverse(), f, c) == filtered_view(s, f, c).reverse(),
{
    lemma_filter_reverse(s, |a: A| pred_fn_app(f, a, c));
}

/// Reverse symmetry for filter-map over sequences: filter-mapping a reversed
/// sequence yields the reverse of filter-mapping the sequence.
pub proof fn lemma_filter_map_reverse<A, B>(s: Seq<A>, g: spec_fn(A) -> Option<B>)
    ensures
        s.reverse().filter_map(g) == s.filter_map(g).reverse(),
    decreases s.len(),
{
    if s.len() == 0 {
        assert(s.reverse().filter_map(g) =~= s.filter_map(g).reverse());
    } else {
        let t = s.drop_last();
        let x = s.last();
        lemma_filter_map_reverse(t, g);
        assert(s.reverse() =~= seq![x] + t.reverse());
        lemma_filter_map_prepend(t.reverse(), x, g);
        match g(x) {
            Some(b) => {
                assert(s.filter_map(g) == t.filter_map(g) + seq![b]);
                assert((t.filter_map(g) + seq![b]).reverse() =~= seq![b] + t.filter_map(
                    g,
                ).reverse());
                assert(s.reverse().filter_map(g) =~= seq![b] + t.filter_map(g).reverse());
            },
            None => {
                assert(s.filter_map(g) == t.filter_map(g));
            },
        }
    }
}

/// Reverse symmetry at the filter-map adaptor's view.
pub proof fn lemma_filter_mapped_view_reverse<A, C, O, F: Fn(A, &C) -> Option<O>>(
    s: Seq<A>,
    g: F,
    c: C,
)
    ensures
        filter_mapped_view(s.reverse(), g, c) == filter_mapped_view(s, g, c).reverse(),
{
    lemma_filter_map_reverse(s, |a: A| map_fn_app(g, a, c));
}

} // verus!

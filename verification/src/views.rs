use vstd::prelude::*;

verus! {

// ------------------------------------------------------------------
// Item transforms: functions of shape `Fn(Item, &Ctx) -> O`.
//
// `filter_map` functions are the same shape with `O = Option<U>`.
// ------------------------------------------------------------------

/// The transform can be called on every item, under every context.
pub open spec fn map_fn_callable<A, C, O, F: Fn(A, &C) -> O>(f: F) -> bool {
    forall|a: A, c: C| #[trigger] call_requires(f, (a, &c))
}

/// The value the transform returns for an item under a context.
pub open spec fn map_fn_app<A, C, O, F: Fn(A, &C) -> O>(f: F, a: A, c: C) -> O {
    choose|o: O| call_ensures(f, (a, &c), o)
}

/// The transform is deterministic: every outcome it can return for given
/// arguments is the one value [`map_fn_app`] names.
pub open spec fn map_fn_det<A, C, O, F: Fn(A, &C) -> O>(f: F) -> bool {
    forall|a: A, c: C, o: O| #[trigger] call_ensures(f, (a, &c), o) ==> o == map_fn_app(f, a, c)
}

// ------------------------------------------------------------------
// Predicates: functions of shape `Fn(&Item, &Ctx) -> bool`.
// ------------------------------------------------------------------

/// The predicate can be asked about every item, under every context.
pub open spec fn pred_fn_callable<A, C, F: Fn(&A, &C) -> bool>(f: F) -> bool {
    forall|a: A, c: C| #[trigger] call_requires(f, (&a, &c))
}

/// The answer the predicate gives for an item under a context.
pub open spec fn pred_fn_app<A, C, F: Fn(&A, &C) -> bool>(f: F, a: A, c: C) -> bool {
    choose|b: bool| call_ensures(f, (&a, &c), b)
}

/// The predicate is deterministic: it gives one answer per item and context.
pub open spec fn pred_fn_det<A, C, F: Fn(&A, &C) -> bool>(f: F) -> bool {
    forall|a: A, c: C, b: bool| #[trigger] call_ensures(f, (&a, &c), b) ==> b == pred_fn_app(
        f,
        a,
        c,
    )
}

// ------------------------------------------------------------------
// Context remaps: functions of shape `Fn(&Ctx) -> &O`.
// ------------------------------------------------------------------

/// The remap can be applied to every context value.
pub open spec fn ctx_fn_callable<C, O, F: Fn(&C) -> &O>(f: F) -> bool {
    forall|c: C| #[trigger] call_requires(f, (&c,))
}

/// The derived context the remap yields for a context value.
pub open spec fn ctx_fn_app<C, O, F: Fn(&C) -> &O>(f: F, c: C) -> O {
    choose|o: O| call_ensures(f, (&c,), &o)
}

/// The remap is deterministic: it derives one view per context value.
pub open spec fn ctx_fn_det<C, O, F: Fn(&C) -> &O>(f: F) -> bool {
    forall|c: C, o: &O| #[trigger] call_ensures(f, (&c,), o) ==> *o == ctx_fn_app(f, c)
}

// ------------------------------------------------------------------
// Stream views of the adaptors.
// ------------------------------------------------------------------

/// The item stream of a map adaptor: each item replaced by the transform's
/// value for it under the context.
pub open spec fn mapped_view<A, C, O, F: Fn(A, &C) -> O>(s: Seq<A>, f: F, c: C) -> Seq<O> {
    s.map_values(|a: A| map_fn_app(f, a, c))
}

/// The item stream of a filter adaptor: exactly the items the predicate
/// accepts under the context, in their original order.
pub open spec fn filtered_view<A, C, F: Fn(&A, &C) -> bool>(s: Seq<A>, f: F, c: C) -> Seq<A> {
    s.filter(|a: A| pred_fn_app(f, a, c))
}

/// The item stream of a filter-map adaptor: the present values of the
/// transform, for exactly the items it accepts, in their original order.
pub open spec fn filter_mapped_view<A, C, O, F: Fn(A, &C) -> Option<O>>(
    s: Seq<A>,
    f: F,
    c: C,
) -> Seq<O> {
    s.filter_map(|a: A| map_fn_app(f, a, c))
}

// ------------------------------------------------------------------
// How `filter` and `filter_map` evolve when one item leaves the stream.
// ------------------------------------------------------------------

/// Filter-mapping a stream cannot make it longer.
pub proof fn lemma_filter_mapped_len_bound<A, C, O, F: Fn(A, &C) -> Option<O>>(
    s: Seq<A>,
    f: F,
    c: C,
)
    ensures
        filter_mapped_view(s, f, c).len() <= s.len(),
    decreases s.len(),
{
    if s.len() > 0 {
        lemma_filter_mapped_len_bound(s.drop_last(), f, c);
    }
}

/// Filtering an empty sequence leaves it empty.
pub proof fn lemma_filter_empty<A>(s: Seq<A>, p: spec_fn(A) -> bool)
    requires
        s.len() == 0,
    ensures
        s.filter(p) == s,
{
    reveal(Seq::filter);
}

/// Filtering a non-empty sequence: the first item either heads the filtered
/// sequence or leaves it untouched.
pub proof fn lemma_filter_drop_first<A>(s: Seq<A>, p: spec_fn(A) -> bool)
    requires
        s.len() > 0,
    ensures
        s.filter(p) == if p(s[0]) {
            seq![s[0]] + s.drop_first().filter(p)
        } else {
            s.drop_first().filter(p)
        },
{
    assert(s =~= seq![s[0]] + s.drop_first());
    Seq::lemma_filter_prepend(s.drop_first(), s[0], p);
    if p(s[0]) {
        assert(seq![s[0]] + s.drop_first().filter(p) =~= (if p(s[0]) {
            seq![s[0]]
        } else {
            Seq::empty()
        }) + s.drop_first().filter(p));
    } else {
        assert(s.drop_first().filter(p) =~= (if p(s[0]) {
            seq![s[0]]
        } else {
            Seq::empty()
        }) + s.drop_first().filter(p));
    }
}

/// Filtering a non-empty sequence: the last item either ends the filtered
/// sequence or leaves it untouched.
pub proof fn lemma_filter_drop_last<A>(s: Seq<A>, p: spec_fn(A) -> bool)
    requires
        s.len() > 0,
    ensures
        s.filter(p) == if p(s.last()) {
            s.drop_last().filter(p).push(s.last())
        } else {
            s.drop_last().filter(p)
        },
{
    reveal(Seq::filter);
}

/// Filter-mapping a sequence with one item prepended: the new item's mapped
/// value, if present, heads the result.
pub proof fn lemma_filter_map_prepend<A, B>(s: Seq<A>, x: A, f: spec_fn(A) -> Option<B>)
    ensures
        (seq![x] + s).filter_map(f) == match f(x) {
            Some(b) => seq![b] + s.filter_map(f),
            None => s.filter_map(f),
        },
    decreases s.len(),
{
    let t = seq![x] + s;
    if s.len() == 0 {
        assert(t =~= seq![x]);
        Seq::lemma_filter_map_singleton(x, f);
        match f(x) {
            Some(b) => {
                assert(seq![b] + s.filter_map(f) =~= seq![b]);
            },
            None => {},
        }
    } else {
        assert(t.drop_last() =~= seq![x] + s.drop_last());
        assert(t.last() == s.last());
        lemma_filter_map_prepend(s.drop_last(), x, f);
        match f(s.last()) {
            Some(b2) => {
                match f(x) {
                    Some(b) => {
                        assert((seq![b] + s.drop_last().filter_map(f)) + seq![b2] =~= seq![b] + (
                        s.drop_last().filter_map(f) + seq![b2]));
                    },
                    None => {},
                }
            },
            None => {},
        }
    }
}

/// Filter-mapping a non-empty sequence: the first item's mapped value, if
/// present, heads the result.
pub proof fn lemma_filter_map_drop_first<A, B>(s: Seq<A>, f: spec_fn(A) -> Option<B>)
    requires
        s.len() > 0,
    ensures
        s.filter_map(f) == match f(s[0]) {
            Some(b) => seq![b] + s.drop_first().filter_map(f),
            None => s.drop_first().filter_map(f),
        },
{
    assert(s =~= seq![s[0]] + s.drop_first());
    lemma_filter_map_prepend(s.drop_first(), s[0], f);
}

/// Filter-mapping a non-empty sequence: the last item's mapped value, if
/// present, ends the result.
pub proof fn lemma_filter_map_drop_last<A, B>(s: Seq<A>, f: spec_fn(A) -> Option<B>)
    requires
        s.len() > 0,
    ensures
        s.filter_map(f) == match f(s.last()) {
            Some(b) => s.drop_last().filter_map(f) + seq![b],
            None => s.drop_last().filter_map(f),
        },
{
}

} // verus!

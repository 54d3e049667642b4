use context_iterators::ContextIterator;
use context_iterators::ContextIteratorExt;
use context_iterators::DoubleEndedPull;
use context_iterators::ExactSizePull;
use context_iterators::IntoContextIterator;
use context_iterators::MapWithCtx;
use context_iterators::PullIterator;
use context_iterators::RangeIter;

fn drain<I: PullIterator>(mut it: I) -> Vec<I::Item> {
    let mut got = Vec::new();
    while let Some(x) = it.next() {
        got.push(x);
    }
    got
}

fn drain_back<I: DoubleEndedPull>(mut it: I) -> Vec<I::Item> {
    let mut got = Vec::new();
    while let Some(x) = it.next_back() {
        got.push(x);
    }
    got
}

#[test]
fn named_map() {
    type MappedIterator = MapWithCtx<RangeIter, usize, fn(usize, &usize) -> usize, usize>;
    let iter: MappedIterator = RangeIter::new(0, 10)
        .with_context(42)
        .map_with_context(|item: usize, context: &usize| item + *context);

    assert_eq!(iter.context(), &42);
    assert_eq!(iter.len(), 10);
    let want: Vec<usize> = (42..52).collect();
    assert_eq!(drain(iter), want);
}

#[test]
fn filter() {
    let iter = RangeIter::new(0, 10)
        .with_context(42)
        .filter_with_context(|item: &usize, context: &usize| item + *context >= 50);

    assert_eq!(iter.context(), &42);
    assert_eq!(iter.clone().count(), 2);
    let want: Vec<usize> = (8..10).collect();
    assert_eq!(drain(iter), want);
}

#[test]
fn filter_map() {
    let iter = RangeIter::new(0, 10)
        .with_context(42)
        .map_with_context(|item: usize, context: &usize| item + *context);

    assert_eq!(iter.context(), &42);
    assert_eq!(iter.len(), 10);
    let want: Vec<usize> = (42..52).collect();
    assert_eq!(drain(iter), want);
}

#[test]
fn filter_map_keeps_present_values() {
    let iter = RangeIter::new(0, 10).with_context(42).filter_map_with_context(
        |item: usize, context: &usize| {
            if item + *context >= 50 {
                Some(item + *context)
            } else {
                None
            }
        },
    );

    assert_eq!(iter.context(), &42);
    assert_eq!(iter.clone().count(), 2);
    assert_eq!(drain(iter), vec![50, 51]);
}

#[test]
fn map_reports_exact_size() {
    let iter = RangeIter::new(0, 10)
        .with_context(42)
        .map_with_context(|item: usize, context: &usize| item + *context);
    assert_eq!(iter.size_hint(), (0, Some(10)));
    assert_eq!(iter.len(), 10);
    assert_eq!(iter.count(), 10);
}

#[test]
fn filter_reports_upper_bound_only() {
    let iter = RangeIter::new(0, 10)
        .with_context(42)
        .filter_with_context(|item: &usize, context: &usize| item + *context >= 50);
    assert_eq!(iter.size_hint(), (0, Some(10)));
}

#[test]
fn filter_map_reports_upper_bound_only() {
    let iter = RangeIter::new(0, 10).with_context(42).filter_map_with_context(
        |item: usize, context: &usize| {
            if item + *context >= 50 {
                Some(item + *context)
            } else {
                None
            }
        },
    );
    assert_eq!(iter.size_hint(), (0, Some(10)));
}

#[test]
fn context_survives_pulling() {
    let mut iter = RangeIter::new(0, 10)
        .with_context(42)
        .map_with_context(|item: usize, context: &usize| item + *context);
    assert_eq!(iter.context(), &42);
    while let Some(_) = iter.next() {
        assert_eq!(iter.context(), &42);
    }
    assert_eq!(iter.context(), &42);
}

#[test]
fn empty_base_sequence() {
    let mut iter = RangeIter::new(5, 5)
        .with_context(42)
        .map_with_context(|item: usize, context: &usize| item + *context);
    assert_eq!(iter.len(), 0);
    assert_eq!(iter.next(), None);
    assert_eq!(iter.next(), None);
    assert_eq!(iter.next_back(), None);
}

#[test]
fn reversed_base_bounds_give_empty_sequence() {
    let iter = RangeIter::new(9, 3).with_context(7);
    assert_eq!(iter.len(), 0);
    assert_eq!(drain(iter), Vec::<usize>::new());
}

#[test]
fn exhausted_filter_stays_exhausted() {
    let mut iter = RangeIter::new(0, 4)
        .with_context(0)
        .filter_with_context(|item: &usize, _context: &usize| item % 2 == 0);
    assert_eq!(iter.next(), Some(0));
    assert_eq!(iter.next(), Some(2));
    assert_eq!(iter.next(), None);
    assert_eq!(iter.next(), None);
    assert_eq!(iter.next(), None);
}

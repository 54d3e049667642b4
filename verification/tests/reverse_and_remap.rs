use context_iterators::ContextIterator;
use context_iterators::ContextIteratorExt;
use context_iterators::DoubleEndedPull;
use context_iterators::ExactSizePull;
use context_iterators::IntoContextIterator;
use context_iterators::PullIterator;
use context_iterators::RangeIter;

fn front<I: PullIterator>(mut it: I) -> Vec<I::Item> {
    let mut got = Vec::new();
    while let Some(x) = it.next() {
        got.push(x);
    }
    got
}

fn back<I: DoubleEndedPull>(mut it: I) -> Vec<I::Item> {
    let mut got = Vec::new();
    while let Some(x) = it.next_back() {
        got.push(x);
    }
    got
}

fn first_of(context: &(usize, usize)) -> &usize {
    &context.0
}

#[test]
fn map_reverse_symmetry() {
    let make = || {
        RangeIter::new(0, 10)
            .with_context(42)
            .map_with_context(|item: usize, context: &usize| item + *context)
    };
    let forward = front(make());
    let mut backward = back(make());
    backward.reverse();
    assert_eq!(forward, backward);
    assert_eq!(forward, (42..52).collect::<Vec<usize>>());
}

#[test]
fn filter_reverse_symmetry() {
    let make = || {
        RangeIter::new(0, 10)
            .with_context(42)
            .filter_with_context(|item: &usize, context: &usize| item + *context >= 50)
    };
    let forward = front(make());
    let mut backward = back(make());
    backward.reverse();
    assert_eq!(forward, backward);
    assert_eq!(forward, vec![8, 9]);
}

#[test]
fn filter_map_reverse_symmetry() {
    let make = || {
        RangeIter::new(0, 10).with_context(42).filter_map_with_context(
            |item: usize, context: &usize| {
                if item + *context >= 50 {
                    Some(item + *context)
                } else {
                    None
                }
            },
        )
    };
    let forward = front(make());
    let mut backward = back(make());
    backward.reverse();
    assert_eq!(forward, backward);
    assert_eq!(forward, vec![50, 51]);
}

#[test]
fn context_remap_projects_context() {
    let iter = RangeIter::new(0, 4).with_context((7, 9)).context_map(first_of);
    assert_eq!(iter.context(), &7);
    assert_eq!(iter.context(), &7);
    assert_eq!(iter.len(), 4);
    assert_eq!(front(iter), vec![0, 1, 2, 3]);
}

#[test]
fn context_remap_passes_items_through_backwards() {
    let mut iter = RangeIter::new(0, 4).with_context((7, 9)).context_map(first_of);
    assert_eq!(iter.next_back(), Some(3));
    assert_eq!(iter.next(), Some(0));
    assert_eq!(iter.context(), &7);
    assert_eq!(iter.len(), 2);
    assert_eq!(iter.count(), 2);
}

#[test]
fn filter_map_matches_filter_then_map() {
    let g = |item: usize, context: &usize| {
        if item + *context >= 50 {
            Some(item + *context)
        } else {
            None
        }
    };
    let combined = RangeIter::new(0, 10).with_context(42).filter_map_with_context(g);
    let split = RangeIter::new(0, 10)
        .with_context(42)
        .filter_with_context(|item: &usize, context: &usize| item + *context >= 50)
        .map_with_context(|item: usize, context: &usize| item + *context);
    assert_eq!(front(combined), front(split));
}

#[test]
fn filter_count_matches_pulled_count() {
    let make = || {
        RangeIter::new(0, 10)
            .with_context(42)
            .filter_with_context(|item: &usize, context: &usize| item + *context >= 50)
    };
    assert_eq!(make().count(), front(make()).len());
}

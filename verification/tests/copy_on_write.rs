use array_core::arena::{Address, Arena};
use array_core::storage::NonNullStorage;
use array_core::{ArcArray, ArrayBase, Dense};

fn shared_four(arena: &mut Arena<i32>) -> ArcArray<i32, Dense<1>> {
    let owned: array_core::Array<i32, Dense<1>> =
        ArrayBase::from_vec(Dense([4]), vec![10, 20, 30, 40], arena).unwrap();
    owned.into_shared()
}

#[test]
fn first_mut_on_a_shared_array_copies_before_it_writes() {
    let mut arena = Arena::new();
    let mut first = shared_four(&mut arena);
    let second = first.share(&mut arena);
    assert_eq!(arena.strong_count(0), 2);
    assert_eq!(arena.allocations(), 1);

    let element = first.first_mut(&mut arena).unwrap();
    assert_eq!(*element, 10);

    assert_eq!(arena.strong_count(0), 1);
    assert_eq!(arena.allocations(), 2);
    assert_eq!(arena.block_len(1), 4);
    assert_eq!(arena.strong_count(1), 1);
    assert_eq!(first.as_ptr(), Address { block: 1, offset: 0 });
    assert_eq!(arena.copy_range(first.as_ptr(), 4), vec![10, 20, 30, 40]);
    assert_eq!(second.first(&arena), Some(&10));
    assert_eq!(second.as_ptr(), Address { block: 0, offset: 0 });
}

#[test]
fn writing_after_copy_on_write_is_not_seen_by_the_other_handle() {
    let mut arena = Arena::new();
    let mut first = shared_four(&mut arena);
    let second = first.share(&mut arena);
    *first.first_mut(&mut arena).unwrap() = 99;
    assert_eq!(first.first(&arena), Some(&99));
    assert_eq!(second.first(&arena), Some(&10));
    assert_eq!(second.len(), 4);
    assert_eq!(arena.copy_range(second.as_ptr(), 4), vec![10, 20, 30, 40]);
    assert_eq!(arena.copy_range(first.as_ptr(), 4), vec![99, 20, 30, 40]);
}

#[test]
fn ensure_unique_twice_does_nothing_the_second_time() {
    let mut arena = Arena::new();
    let mut first = shared_four(&mut arena);
    let _second = first.share(&mut arena);
    first.ensure_unique(&mut arena);
    let place = first.as_ptr();
    let made = arena.allocations();
    let count = arena.strong_count(place.block);
    first.ensure_unique(&mut arena);
    assert_eq!(first.as_ptr(), place);
    assert_eq!(arena.allocations(), made);
    assert_eq!(arena.strong_count(place.block), count);
    assert_eq!(arena.strong_count(0), 1);
    assert_eq!(first.as_mut_ptr(&mut arena), place);
    assert_eq!(arena.allocations(), made);
}

#[test]
fn ensure_unique_on_a_sole_owner_copies_nothing() {
    let mut arena = Arena::new();
    let mut only = shared_four(&mut arena);
    assert!(only.is_unique(&arena));
    only.ensure_unique(&mut arena);
    assert_eq!(arena.allocations(), 1);
    assert_eq!(only.as_ptr(), Address { block: 0, offset: 0 });
    assert_eq!(arena.strong_count(0), 1);
}

#[test]
fn is_unique_tells_whether_the_count_is_one() {
    let mut arena = Arena::new();
    let first = shared_four(&mut arena);
    assert!(first.is_unique(&arena));
    let second = first.share(&mut arena);
    assert!(!first.is_unique(&arena));
    assert!(!second.is_unique(&arena));
    second.release(&mut arena);
    assert!(first.is_unique(&arena));
}

#[test]
fn copy_on_write_copies_only_what_the_handle_sees() {
    let mut arena = Arena::new();
    let whole = shared_four(&mut arena);
    let mut part = whole.share(&mut arena);
    part.aref.0.layout = Dense([2]);
    part.aref.0.storage = NonNullStorage::new(Address { block: 0, offset: 1 });
    assert_eq!(part.first(&arena), Some(&20));

    part.ensure_unique(&mut arena);

    assert_eq!(part.as_ptr(), Address { block: 1, offset: 0 });
    assert_eq!(part.own.id(), 1);
    assert_eq!(arena.block_len(1), 2);
    assert_eq!(arena.copy_range(part.as_ptr(), 2), vec![20, 30]);
    assert_eq!(arena.block_len(0), 4);
    assert_eq!(whole.first(&arena), Some(&10));
}

#[test]
fn handles_with_overlapping_views_are_cut_off_from_each_other() {
    let mut arena = Arena::new();
    let mut front = shared_four(&mut arena);
    let mut back = front.share(&mut arena);
    front.aref.0.layout = Dense([3]);
    back.aref.0.layout = Dense([3]);
    back.aref.0.storage = NonNullStorage::new(Address { block: 0, offset: 1 });

    *back.first_mut(&mut arena).unwrap() = 21;

    assert_eq!(arena.copy_range(front.as_ptr(), 3), vec![10, 20, 30]);
    assert_eq!(front.len(), 3);
    assert_eq!(arena.copy_range(back.as_ptr(), 3), vec![21, 30, 40]);

    *front.first_mut(&mut arena).unwrap() = 11;
    assert_eq!(arena.copy_range(front.as_ptr(), 3), vec![11, 20, 30]);
    assert_eq!(arena.copy_range(back.as_ptr(), 3), vec![21, 30, 40]);
    assert_eq!(arena.allocations(), 2);
}

#[test]
fn handles_with_disjoint_views_are_cut_off_from_each_other() {
    let mut arena = Arena::new();
    let mut low = shared_four(&mut arena);
    let mut high = low.share(&mut arena);
    low.aref.0.layout = Dense([2]);
    high.aref.0.layout = Dense([2]);
    high.aref.0.storage = NonNullStorage::new(Address { block: 0, offset: 2 });

    *low.first_mut(&mut arena).unwrap() = 0;

    assert_eq!(high.first(&arena), Some(&30));
    assert_eq!(high.len(), 2);
    assert_eq!(arena.copy_range(high.as_ptr(), 2), vec![30, 40]);
    assert_eq!(arena.copy_range(low.as_ptr(), 2), vec![0, 20]);
}

#[test]
fn first_mut_on_an_empty_shared_array_is_none() {
    let mut arena: Arena<i32> = Arena::new();
    let owned: array_core::Array<i32, Dense<1>> =
        ArrayBase::from_vec(Dense([0]), vec![], &mut arena).unwrap();
    let mut first = owned.into_shared();
    let _second = first.share(&mut arena);
    assert!(first.first_mut(&mut arena).is_none());
    assert!(first.is_unique(&arena));
    assert_eq!(arena.allocations(), 2);
}

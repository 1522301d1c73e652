use array_core::arena::{Address, Arena};
use array_core::showcase::{caller, ergonomic, ergonomic_mut, ergonomic_raw, ergonomic_raw_mut};
use array_core::storage::{NonNullStorage, PointerStorage};
use array_core::{ArcArray, Array, ArrayBase, Dense};

fn four(arena: &mut Arena<i32>) -> Array<i32, Dense<1>> {
    ArrayBase::from_vec(Dense([4]), vec![10, 20, 30, 40], arena).unwrap()
}

#[test]
fn owned_array_has_as_many_elements_as_it_was_built_from() {
    let mut arena = Arena::new();
    let arr = four(&mut arena);
    assert_eq!(arr.len(), 4);
    assert!(!arr.is_empty());
    let grid: Array<i32, Dense<2>> =
        ArrayBase::from_vec(Dense([2, 3]), vec![1, 2, 3, 4, 5, 6], &mut arena).unwrap();
    assert_eq!(grid.len(), 6);
    assert!(!grid.is_empty());
}

#[test]
fn owned_array_built_from_nothing_is_empty() {
    let mut arena: Arena<i32> = Arena::new();
    let arr: Array<i32, Dense<1>> = ArrayBase::from_vec(Dense([0]), vec![], &mut arena).unwrap();
    assert_eq!(arr.len(), 0);
    assert!(arr.is_empty());
    assert_eq!(arr.first(&arena), None);
    let flat: Array<i32, Dense<2>> =
        ArrayBase::from_vec(Dense([3, 0]), vec![], &mut arena).unwrap();
    assert_eq!(flat.len(), 0);
    assert!(flat.is_empty());
}

#[test]
fn array_of_rank_zero_holds_one_element() {
    let mut arena = Arena::new();
    let arr: Array<i32, Dense<0>> = ArrayBase::from_vec(Dense([]), vec![7], &mut arena).unwrap();
    assert_eq!(arr.len(), 1);
    assert!(!arr.is_empty());
    assert_eq!(arr.first(&arena), Some(&7));
}

#[test]
fn from_vec_refuses_a_shape_of_another_size() {
    let mut arena = Arena::new();
    let short: Option<Array<i32, Dense<1>>> =
        ArrayBase::from_vec(Dense([5]), vec![1, 2, 3, 4], &mut arena);
    assert!(short.is_none());
    let long: Option<Array<i32, Dense<2>>> =
        ArrayBase::from_vec(Dense([1, 3]), vec![1, 2, 3, 4], &mut arena);
    assert!(long.is_none());
    assert_eq!(arena.allocations(), 0);
}

#[test]
fn from_vec_refuses_a_shape_whose_size_overflows() {
    let mut arena: Arena<i32> = Arena::new();
    let made: Option<Array<i32, Dense<3>>> =
        ArrayBase::from_vec(Dense([usize::MAX, 2, 0]), vec![], &mut arena);
    assert!(made.is_none());
    assert_eq!(arena.allocations(), 0);
}

#[test]
fn from_vec_puts_the_elements_in_a_new_allocation() {
    let mut arena = Arena::new();
    let first = four(&mut arena);
    let second = four(&mut arena);
    assert_eq!(arena.allocations(), 2);
    assert_eq!(first.as_ptr(), Address { block: 0, offset: 0 });
    assert_eq!(second.as_ptr(), Address { block: 1, offset: 0 });
    assert_eq!(first.own.id(), 0);
    assert_eq!(second.own.id(), 1);
    assert_eq!(arena.strong_count(0), 1);
    assert_eq!(arena.block_len(1), 4);
    assert_eq!(arena.copy_range(Address { block: 1, offset: 1 }, 3), vec![20, 30, 40]);
}

#[test]
fn first_is_the_element_at_the_lowest_address() {
    let mut arena = Arena::new();
    let arr = four(&mut arena);
    assert_eq!(arr.first(&arena), Some(&10));
}

#[test]
fn first_mut_writes_the_first_element() {
    let mut arena = Arena::new();
    let mut arr = four(&mut arena);
    *arr.first_mut(&mut arena).unwrap() = 11;
    assert_eq!(arr.first(&arena), Some(&11));
    assert_eq!(arena.copy_range(arr.as_ptr(), 4), vec![11, 20, 30, 40]);
}

#[test]
fn exclusive_array_is_always_unique_and_never_copies() {
    let mut arena = Arena::new();
    let mut arr = four(&mut arena);
    assert!(arr.is_unique(&arena));
    let place = arr.as_ptr();
    arr.ensure_unique(&mut arena);
    assert!(arr.is_unique(&arena));
    assert_eq!(arena.allocations(), 1);
    assert_eq!(arr.as_ptr(), place);
    assert_eq!(arr.as_mut_ptr(&mut arena), place);
    *arr.first_mut(&mut arena).unwrap() = 5;
    assert_eq!(arena.allocations(), 1);
    assert_eq!(arena.strong_count(0), 1);
}

#[test]
fn into_shared_moves_no_element() {
    let mut arena = Arena::new();
    let arr = four(&mut arena);
    let place = arr.as_ptr();
    let shared: ArcArray<i32, Dense<1>> = arr.into_shared();
    assert_eq!(shared.as_ptr(), place);
    assert_eq!(shared.len(), 4);
    assert_eq!(arena.allocations(), 1);
    assert_eq!(arena.strong_count(0), 1);
    assert!(shared.is_unique(&arena));
    assert_eq!(shared.first(&arena), Some(&10));
}

#[test]
fn release_frees_the_allocation_with_its_last_owner() {
    let mut arena = Arena::new();
    let first = four(&mut arena).into_shared();
    let second = first.share(&mut arena);
    assert_eq!(arena.strong_count(0), 2);
    first.release(&mut arena);
    assert_eq!(arena.strong_count(0), 1);
    assert_eq!(arena.block_len(0), 4);
    assert_eq!(second.first(&arena), Some(&10));
    second.release(&mut arena);
    assert_eq!(arena.strong_count(0), 0);
    assert_eq!(arena.block_len(0), 0);
    assert_eq!(arena.allocations(), 1);
}

#[test]
fn releasing_an_exclusive_array_frees_its_allocation() {
    let mut arena = Arena::new();
    let arr = four(&mut arena);
    arr.release(&mut arena);
    assert_eq!(arena.strong_count(0), 0);
    assert_eq!(arena.block_len(0), 0);
}

#[test]
fn arena_counts_nothing_for_an_allocation_never_made() {
    let arena: Arena<i32> = Arena::new();
    assert_eq!(arena.allocations(), 0);
    assert_eq!(arena.strong_count(3), 0);
    assert_eq!(arena.block_len(3), 0);
}

#[test]
fn arena_reads_and_writes_single_elements() {
    let mut arena = Arena::new();
    let block = arena.allocate(vec![1u8, 2, 3]);
    assert_eq!(block, 0);
    assert_eq!(*arena.get(Address { block, offset: 2 }), 3);
    *arena.get_mut(Address { block, offset: 1 }) = 9;
    assert_eq!(arena.copy_range(Address { block, offset: 0 }, 3), vec![1, 9, 3]);
    arena.retain(block);
    assert_eq!(arena.strong_count(block), 2);
    arena.release(block);
    assert_eq!(arena.strong_count(block), 1);
    assert_eq!(arena.block_len(block), 3);
}

#[test]
fn storage_finds_elements_from_its_offset() {
    let mut arena = Arena::new();
    let block = arena.allocate(vec![1u8, 2, 3, 4]);
    let mut storage: NonNullStorage<u8> = NonNullStorage::new(Address { block, offset: 1 });
    assert_eq!(storage.as_ptr(), Address { block, offset: 1 });
    assert_eq!(*storage.ref_from_offset(&arena, 0), 2);
    assert_eq!(*storage.ref_from_offset(&arena, 2), 4);
    *storage.ref_mut_from_offset(&mut arena, 1) = 30;
    assert_eq!(arena.copy_range(Address { block, offset: 0 }, 4), vec![1, 2, 30, 4]);
    assert_eq!(storage.as_ptr(), Address { block, offset: 1 });
}

#[test]
fn views_see_what_the_array_sees() {
    let mut arena = Arena::new();
    let mut arr = four(&mut arena);
    let place = arr.as_ptr();
    {
        let view = arr.view();
        assert_eq!(view.len(), 4);
        assert_eq!(view.as_ptr(), place);
        assert_eq!(view.first(&arena), Some(&10));
        let again = view.reborrow();
        assert_eq!(again.first(&arena), Some(&10));
        let raw = view.raw_view();
        assert_eq!(raw.as_ptr(), place);
        assert_eq!(raw.raw_view().len(), 4);
    }
    let raw = arr.raw_view();
    assert_eq!(raw.as_ptr(), place);
    assert_eq!(raw.len(), 4);
    assert!(!raw.is_empty());
    let mut raw_mut = arr.raw_view_mut(&mut arena);
    assert_eq!(raw_mut.as_ptr(), place);
    assert_eq!(raw_mut.deref_mut().as_mut_ptr(), place);
    assert_eq!(raw_mut.raw_view().as_ptr(), place);
    assert_eq!(raw_mut.raw_view_mut().as_ptr(), place);
}

#[test]
fn a_view_to_write_changes_what_the_array_sees() {
    let mut arena = Arena::new();
    let mut arr = four(&mut arena);
    {
        let mut view = arr.view_mut(&mut arena);
        assert_eq!(view.first(&arena), Some(&10));
        *view.deref_mut().first_mut(&mut arena).unwrap() = 77;
        assert_eq!(view.view().first(&arena), Some(&77));
        let mut inner = view.reborrow();
        *inner.deref_mut().first_mut(&mut arena).unwrap() = 78;
        assert_eq!(view.raw_view().as_ptr(), Address { block: 0, offset: 0 });
        assert_eq!(view.raw_view_mut().len(), 4);
    }
    assert_eq!(arr.first(&arena), Some(&78));
    assert_eq!(arena.allocations(), 1);
}

#[test]
fn a_view_to_write_of_a_shared_array_gets_a_private_copy() {
    let mut arena = Arena::new();
    let mut first = four(&mut arena).into_shared();
    let second = first.share(&mut arena);
    {
        let mut view = first.view_mut(&mut arena);
        assert_eq!(view.as_ptr(), Address { block: 1, offset: 0 });
        *view.deref_mut().first_mut(&mut arena).unwrap() = 1;
    }
    assert_eq!(first.first(&arena), Some(&1));
    assert_eq!(second.first(&arena), Some(&10));
    assert_eq!(arena.strong_count(0), 1);
    assert_eq!(arena.strong_count(1), 1);
}

#[test]
fn references_can_be_pointed_elsewhere_through_ptr_mut() {
    let mut arena = Arena::new();
    let mut arr = four(&mut arena);
    let mut raw = arr.raw_view_mut(&mut arena);
    assert_eq!(raw.ptr().as_ptr(), Address { block: 0, offset: 0 });
    *raw.deref_mut().ptr_mut() = NonNullStorage::new(Address { block: 0, offset: 2 });
    assert_eq!(raw.as_ptr(), Address { block: 0, offset: 2 });
    assert_eq!(raw.len(), 4);
}

#[test]
fn each_handle_answers_what_it_can_be_asked() {
    let mut arena = Arena::new();
    let mut arr = four(&mut arena);
    assert_eq!(ergonomic_raw(&arr), Address { block: 0, offset: 0 });
    assert_eq!(ergonomic(&arr, &arena), Some(&10));
    assert_eq!(ergonomic_raw_mut(arr.deref_mut().deref_mut()), Address { block: 0, offset: 0 });
    *ergonomic_mut(arr.deref_mut(), &mut arena).unwrap() = 12;
    assert_eq!(ergonomic(&arr.view(), &arena), Some(&12));
    assert_eq!(ergonomic_raw(&arr.raw_view()), Address { block: 0, offset: 0 });
}

#[test]
fn caller_reports_every_answer_in_order() {
    let mut arena = Arena::new();
    let arr = four(&mut arena);
    let source = ArrayBase::from_vec(Dense([2]), vec![5, 6], &mut arena).unwrap();
    let mut other: Array<i32, Dense<1>> =
        ArrayBase::from_vec(Dense([0]), vec![], &mut arena).unwrap();
    let raw = source.raw_view();
    let raw_mut = other.raw_view_mut(&mut arena);
    let view_mut = other.view_mut(&mut arena);
    let view = source.view();
    let seen = caller(arr, view, view_mut, raw, raw_mut, &mut arena);
    let a = Address { block: 0, offset: 0 };
    let s = Address { block: 1, offset: 0 };
    let o = Address { block: 2, offset: 0 };
    assert_eq!(seen.places, vec![a, a, s, o, o, s, o, o]);
    assert_eq!(seen.firsts, vec![Some(10), Some(10), Some(5), None, None]);
    assert_eq!(arena.allocations(), 3);
    assert_eq!(arena.copy_range(a, 4), vec![10, 20, 30, 40]);
}

#[test]
fn valid_in_tells_whether_a_handle_can_be_used() {
    let mut arena = Arena::new();
    let arr = four(&mut arena);
    assert!(arr.valid_in(&arena));
    assert!(arr.view().valid_in(&arena));
    let empty: Arena<i32> = Arena::new();
    assert!(!arr.valid_in(&empty));
    assert!(!arr.view().valid_in(&empty));

    let mut moved = four(&mut arena);
    moved.aref.0.storage = NonNullStorage::new(Address { block: 1, offset: 1 });
    assert!(!moved.valid_in(&arena));
    moved.aref.0.layout = Dense([3]);
    assert!(moved.valid_in(&arena));
    moved.aref.0.storage = NonNullStorage::new(Address { block: 0, offset: 0 });
    assert!(!moved.valid_in(&arena));
    assert!(moved.aref.valid_in(&arena));
}

#[test]
fn valid_in_knows_the_counts_that_a_backend_allows() {
    let mut arena = Arena::new();
    let shared = four(&mut arena).into_shared();
    let other = shared.share(&mut arena);
    assert!(shared.valid_in(&arena));
    assert!(other.valid_in(&arena));
    let mut sole = four(&mut arena);
    assert!(sole.valid_in(&arena));
    arena.retain(1);
    assert!(!sole.valid_in(&arena));
    arena.release(1);
    assert!(sole.valid_in(&arena));
    sole.ensure_unique(&mut arena);
    sole.release(&mut arena);
    assert!(other.valid_in(&arena));
    other.release(&mut arena);
    shared.release(&mut arena);
    assert_eq!(arena.strong_count(0), 0);
}

#[test]
fn a_released_allocation_makes_its_handles_invalid() {
    let mut arena = Arena::new();
    let mut arr = four(&mut arena);
    let raw = arr.raw_view();
    let view_ref: array_core::ArrayRef<i32, Dense<1>> =
        array_core::ArrayRefBase(array_core::RawArrayRefBase {
            layout: raw.aref.layout,
            storage: raw.aref.storage,
        });
    assert!(view_ref.valid_in(&arena));
    arr.ensure_unique(&mut arena);
    arr.release(&mut arena);
    assert!(!view_ref.valid_in(&arena));
}

#[test]
fn len_checked_is_none_only_where_the_size_overflows() {
    let mut arena: Arena<i32> = Arena::new();
    let mut arr: Array<i32, Dense<2>> =
        ArrayBase::from_vec(Dense([0, 4]), vec![], &mut arena).unwrap();
    assert_eq!(arr.len_checked(), Some(0));
    arr.aref.0.layout = Dense([usize::MAX, 2]);
    assert_eq!(arr.len_checked(), None);
    assert!(!arr.valid_in(&arena));
    arr.aref.0.layout = Dense([usize::MAX, 0]);
    assert_eq!(arr.len_checked(), Some(0));
    assert!(arr.is_empty());
    assert!(arr.valid_in(&arena));
    arr.aref.0.layout = Dense([3, 5]);
    assert_eq!(arr.len_checked(), Some(15));
}

use array_core::{AddAxis, Dense, Layout, Patterned, RemoveAxis};

#[test]
fn shape_two_by_three_has_six_elements() {
    let shape = Dense([2, 3]);
    assert_eq!(shape.size(), 6);
    assert_eq!(shape.ndim(), 2);
    assert_eq!(shape.size_checked(), Some(6));
}

#[test]
fn removing_axis_zero_of_two_by_three_leaves_three() {
    let shape = Dense([2, 3]);
    let smaller: Dense<1> = shape.remove_axis(0);
    assert_eq!(smaller.0, [3]);
}

#[test]
fn removing_axis_one_of_two_by_three_leaves_two() {
    let shape = Dense([2, 3]);
    let smaller: Dense<1> = shape.remove_axis(1);
    assert_eq!(smaller.0, [2]);
}

#[test]
fn removing_an_axis_past_the_end_drops_the_last() {
    let shape = Dense([2, 3]);
    assert_eq!(shape.remove_axis(9).0, [2]);
    assert_eq!(Dense([7]).remove_axis(5).0, [0usize; 0]);
}

#[test]
fn shape_without_axes_has_one_element() {
    let shape: Dense<0> = Dense([]);
    assert_eq!(shape.ndim(), 0);
    assert_eq!(shape.size(), 1);
    assert_eq!(shape.size_checked(), Some(1));
}

#[test]
fn size_is_the_product_of_the_extents() {
    assert_eq!(Dense([5]).size(), 5);
    assert_eq!(Dense([4, 7]).size(), 28);
    assert_eq!(Dense([2, 3, 5]).size(), 30);
    assert_eq!(Dense([2, 0, 5]).size(), 0);
}

#[test]
fn size_with_a_zero_extent_is_zero_whatever_the_others() {
    assert_eq!(Dense([usize::MAX, 2, 0]).size(), 0);
    assert_eq!(Dense([0, usize::MAX, usize::MAX]).size(), 0);
}

#[test]
fn size_checked_reports_overflow() {
    assert_eq!(Dense([usize::MAX, 2]).size_checked(), None);
    assert_eq!(Dense([1 << 40, 1 << 40]).size_checked(), None);
    assert_eq!(Dense([usize::MAX, 1]).size_checked(), Some(usize::MAX));
}

#[test]
fn size_checked_multiplies_in_axis_order() {
    assert_eq!(Dense([usize::MAX, 2, 0]).size_checked(), None);
    assert_eq!(Dense([0, usize::MAX, usize::MAX]).size_checked(), Some(0));
}

#[test]
fn adding_an_axis_puts_the_extent_at_its_position() {
    assert_eq!(Dense([3]).add_axis(0, 2).0, [2, 3]);
    assert_eq!(Dense([3]).add_axis(1, 2).0, [3, 2]);
    let none: Dense<0> = Dense([]);
    assert_eq!(none.add_axis(0, 4).0, [4]);
}

#[test]
fn adding_an_axis_past_the_end_appends() {
    assert_eq!(Dense([3]).add_axis(17, 2).0, [3, 2]);
    let none: Dense<0> = Dense([]);
    assert_eq!(none.add_axis(3, 4).0, [4]);
}

#[test]
fn removing_then_adding_an_axis_gives_the_shape_back() {
    let shape = Dense([2, 3]);
    for axis in 0..2 {
        let back = shape.remove_axis(axis).add_axis(axis, shape.0[axis]);
        assert!(back.equal(&shape));
    }
    let one = Dense([6]);
    assert!(one.remove_axis(0).add_axis(0, 6).equal(&one));
}

#[test]
fn adding_then_removing_an_axis_gives_the_shape_back() {
    let shape = Dense([5]);
    for axis in 0..4 {
        let back = shape.add_axis(axis, 9).remove_axis(axis);
        assert!(back.equal(&shape));
    }
}

#[test]
fn shapes_are_equal_when_their_extents_are() {
    assert!(Dense([2, 3]).equal(&Dense([2, 3])));
    assert!(!Dense([2, 3]).equal(&Dense([3, 2])));
    assert!(!Dense([2, 3]).equal(&Dense([2, 4])));
    let none: Dense<0> = Dense([]);
    assert!(none.equal(&Dense([])));
}

#[test]
fn fixed_rank_is_known_from_the_type() {
    assert_eq!(Dense::<0>::fixed_ndim(), Some(0));
    assert_eq!(Dense::<2>::fixed_ndim(), Some(2));
    assert_eq!(Dense([1, 2, 3, 4]).ndim(), 4);
}

#[test]
fn slices_show_and_change_the_extents() {
    let mut shape = Dense([2, 3]);
    assert_eq!(shape.slice(), &[2, 3]);
    shape.slice_mut()[1] = 8;
    assert_eq!(shape.0, [2, 8]);
    assert_eq!(shape.size(), 16);
}

#[test]
fn patterns_name_the_extents() {
    let none: Dense<0> = Dense([]);
    assert_eq!(none.as_pattern(), ());
    assert_eq!(Dense([4]).as_pattern(), (4,));
    assert_eq!(Dense([4, 5]).as_pattern(), (4, 5));
}

#[test]
fn shapes_are_made_from_patterns() {
    let none: Dense<0> = Dense::from(());
    assert_eq!(none.0, [0usize; 0]);
    let one: Dense<1> = Dense::from((4,));
    assert_eq!(one.0, [4]);
    let two: Dense<2> = (4, 5).into();
    assert_eq!(two.0, [4, 5]);
}

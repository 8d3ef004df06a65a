use epoch_reset_array::{EpochResetArray, EpochResetArrayCounter, EpochResetArrayIndex};

#[test]
fn test_basic() {
    let mut array = EpochResetArray::<_, _, u8>::new(1, 5);
    assert_eq!(array.get(0), &1);
    assert_eq!(array.get(4), &1);

    array.set(2, 42);
    assert_eq!(array.get(2), &42);
    array.reset();
    assert_eq!(array.get(2), &1);
}

#[test]
fn test_full_reset() {
    let mut array = EpochResetArray::<_, _, u8>::new(1, 5);

    array.set(1, 3);

    for _ in 0..=u8::MAX {
        array.reset();
        assert_eq!(array.get(1), &1);
    }

    array.reset();
    assert_eq!(array.get(1), &1);
}

#[test]
fn fresh_array_reads_reset_value_everywhere() {
    let array = EpochResetArray::<usize, i64, u32>::new(-7, 10);
    for i in 0..10 {
        assert_eq!(array.get(i), &-7);
    }
    assert_eq!(array.len_usize(), 10);
    assert_eq!(array.len_index(), 10);
    assert!(!array.is_empty());
}

#[test]
fn empty_array() {
    let mut array = EpochResetArray::<u8, u8, u8>::new(0, 0);
    assert!(array.is_empty());
    assert_eq!(array.len_usize(), 0);
    assert_eq!(array.len_index(), 0);
    for _ in 0..300 {
        array.reset();
    }
    assert!(array.is_empty());
}

#[test]
fn largest_length_of_a_narrow_index() {
    let mut array = EpochResetArray::<u8, u16, u16>::new(9, 255);
    assert_eq!(array.len_index(), 255u8);
    array.set(254, 1);
    assert_eq!(array.get(254), &1);
    assert_eq!(array.get(253), &9);
}

#[test]
fn write_then_read_round_trip() {
    let mut array = EpochResetArray::<u32, char, u64>::new('.', 4);
    for (i, c) in ['a', 'b', 'c', 'd'].iter().enumerate() {
        array.set(i as u32, *c);
        assert_eq!(array.get(i as u32), c);
    }
    assert_eq!(array.get(0), &'a');
    assert_eq!(array.get(3), &'d');
}

#[test]
fn reset_restores_every_slot() {
    let mut array = EpochResetArray::<i32, i32, u16>::new(5, 6);
    for i in 0..6 {
        array.set(i, i * 100);
    }
    array.reset();
    for i in 0..6 {
        assert_eq!(array.get(i), &5);
    }
}

#[test]
fn reset_twice_is_reset_once() {
    let mut array = EpochResetArray::<i32, i32, u8>::new(2, 3);
    array.set(0, 8);
    array.reset();
    let once: Vec<i32> = (0..3).map(|i| *array.get(i)).collect();
    array.reset();
    let twice: Vec<i32> = (0..3).map(|i| *array.get(i)).collect();
    assert_eq!(once, vec![2, 2, 2]);
    assert_eq!(once, twice);
}

#[test]
fn set_returns_previous_value_in_same_epoch() {
    let mut array = EpochResetArray::<i32, i32, u8>::new(0, 3);
    array.reset();
    assert_eq!(array.set(1, 10), None);
    assert_eq!(array.set(1, 20), Some(10));
    assert_eq!(array.get(1), &20);
}

#[test]
fn set_on_stale_slot_returns_none() {
    let mut array = EpochResetArray::<i32, i32, u8>::new(0, 3);
    array.set(2, 4);
    array.reset();
    assert_eq!(array.set(2, 6), None);
    assert_eq!(array.get(2), &6);
}

#[test]
fn set_on_fresh_slot_returns_reset_value() {
    let mut array = EpochResetArray::<i32, i32, u8>::new(3, 2);
    assert_eq!(array.set(0, 1), Some(3));
}

#[test]
fn set_after_wrapping_reset_returns_reset_value() {
    let mut array = EpochResetArray::<i32, i32, u8>::new(3, 2);
    for _ in 0..u8::MAX {
        array.reset();
    }
    assert_eq!(array.set(0, 1), None);
    array.reset();
    assert_eq!(array.get(0), &3);
    assert_eq!(array.set(0, 4), Some(3));
}

#[test]
fn slots_are_independent() {
    let mut array = EpochResetArray::<i32, i32, u8>::new(0, 4);
    array.set(1, 11);
    array.set(2, 22);
    assert_eq!(array.get(0), &0);
    assert_eq!(array.get(1), &11);
    assert_eq!(array.get(2), &22);
    assert_eq!(array.get(3), &0);
}

#[test]
fn get_mut_starts_from_reset_value_on_stale_slot() {
    let mut array = EpochResetArray::<i32, i32, u8>::new(1, 3);
    array.set(1, 3);
    array.reset();
    *array.get_mut(1) += 10;
    assert_eq!(array.get(1), &11);
    assert_eq!(array.set(1, 0), Some(11));
}

#[test]
fn get_mut_keeps_live_value() {
    let mut array = EpochResetArray::<i32, i32, u8>::new(1, 3);
    array.set(2, 5);
    *array.get_mut(2) *= 3;
    assert_eq!(array.get(2), &15);
    assert_eq!(array.get(0), &1);
}

#[test]
fn writes_survive_many_epochs_of_a_small_counter() {
    let mut array = EpochResetArray::<i32, i32, u8>::new(0, 2);
    for round in 0..1000 {
        assert_eq!(array.get(0), &0);
        array.set(0, round);
        assert_eq!(array.get(0), &round);
        array.reset();
    }
    assert_eq!(array.get(0), &0);
    assert_eq!(array.get(1), &0);
}

#[test]
fn clone_copies_contents() {
    let mut array = EpochResetArray::<i32, i32, u8>::new(0, 3);
    array.set(1, 5);
    let mut copy = array.clone();
    assert_eq!(copy.get(1), &5);
    copy.set(1, 6);
    assert_eq!(array.get(1), &5);
    assert_eq!(copy.get(1), &6);
    copy.reset();
    assert_eq!(copy.get(1), &0);
    assert_eq!(array.get(1), &5);
}

#[test]
fn counters_step_by_one_and_stop_at_max() {
    assert_eq!(<u8 as EpochResetArrayCounter>::zero(), 0);
    assert_eq!(41u8.checked_increment(), Some(42));
    assert_eq!(u8::MAX.checked_increment(), None);
    assert_eq!(41u16.checked_increment(), Some(42));
    assert_eq!(u16::MAX.checked_increment(), None);
    assert_eq!(41u32.checked_increment(), Some(42));
    assert_eq!(u32::MAX.checked_increment(), None);
    assert_eq!(41u64.checked_increment(), Some(42));
    assert_eq!(u64::MAX.checked_increment(), None);
    assert_eq!(41usize.checked_increment(), Some(42));
    assert_eq!(usize::MAX.checked_increment(), None);
    assert!(7u8.same_counter(&7));
    assert!(!7u8.same_counter(&8));
}

#[test]
fn indices_convert_both_ways() {
    assert_eq!(EpochResetArrayIndex::to_usize(17i32), 17usize);
    assert_eq!(<i32 as EpochResetArrayIndex>::from_usize(17), 17i32);
    assert_eq!(EpochResetArrayIndex::to_usize(200u8), 200usize);
    assert_eq!(<u8 as EpochResetArrayIndex>::from_usize(255), 255u8);
    assert_eq!(<i64 as EpochResetArrayIndex>::from_usize(3), 3i64);
    assert_eq!(EpochResetArrayIndex::to_usize(65535u16), 65535usize);
}

use syscall_hints::addr::{felt_to_count, Addr, AddressFault};
use syscall_hints::felt::{felt_to_usize, Felt};

#[test]
fn felt_small_value_converts_to_usize() {
    assert_eq!(felt_to_usize(&Felt::from_u64(42)), Some(42));
    assert_eq!(felt_to_usize(&Felt::from_u64(0)), Some(0));
}

#[test]
fn felt_large_value_does_not_convert() {
    let f = Felt { d0: 0, d1: 1, d2: 0, d3: 0 };
    assert_eq!(felt_to_usize(&f), None);
    assert_eq!(felt_to_count(&f), Err(AddressFault::NotAUsize { value: f }));
}

#[test]
fn felt_same_compares_all_digits() {
    let a = Felt { d0: 5, d1: 0, d2: 0, d3: 9 };
    let b = Felt { d0: 5, d1: 0, d2: 0, d3: 8 };
    assert!(a.same(&a));
    assert!(!a.same(&b));
}

#[test]
fn add_offset_moves_within_segment() {
    let a = Addr::new(3, 10);
    assert_eq!(a.add_offset(5), Ok(Addr::new(3, 15)));
}

#[test]
fn add_offset_overflow_is_bad_address() {
    let a = Addr::new(3, usize::MAX);
    assert_eq!(a.add_offset(1), Err(AddressFault::OffsetOverflow { base: a, delta: 1 }));
}

#[test]
fn distance_in_one_segment() {
    assert_eq!(Addr::new(2, 7).distance_from(Addr::new(2, 4)), Ok(3));
    assert_eq!(Addr::new(2, 4).distance_from(Addr::new(2, 4)), Ok(0));
}

#[test]
fn distance_across_segments_fails() {
    let end = Addr::new(2, 7);
    let start = Addr::new(1, 4);
    assert_eq!(end.distance_from(start), Err(AddressFault::DifferentSegments { end, start }));
}

#[test]
fn distance_backwards_fails() {
    let end = Addr::new(2, 1);
    let start = Addr::new(2, 4);
    assert_eq!(end.distance_from(start), Err(AddressFault::NegativeDistance { end, start }));
}

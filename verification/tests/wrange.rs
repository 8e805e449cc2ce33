use rugby::wrange::Wrange;

#[test]
fn lib_from_range_works() {
    let range = Wrange::from(126..-126);
    let found: Vec<i8> = range.to_vec();
    let truth = [126, 127, -128, -127];
    assert_eq!(found, truth);
}

#[test]
fn lib_from_range_from_works() {
    let range = Wrange::upto(4u8);
    let found: Vec<u8> = range.to_vec();
    let truth = [0, 1, 2, 3];
    assert_eq!(found, truth);
}

#[test]
fn lib_from_range_full_works() {
    let range = Wrange::<i8>::full();
    let found: Vec<i8> = range.to_vec();
    let truth: [i8; 256] = std::array::from_fn(|i| (i as i8).wrapping_add(-128));
    assert_eq!(found, truth);
}

#[test]
fn lib_from_range_inclusive_works() {
    let range = Wrange::from(254u8..=2);
    let found: Vec<u8> = range.to_vec();
    let truth = [254, 255, 0, 1, 2];
    assert_eq!(found, truth);
}

#[test]
fn lib_from_range_to_works() {
    let range = Wrange::upto(4u8);
    let found: Vec<u8> = range.to_vec();
    let truth = [0, 1, 2, 3];
    assert_eq!(found, truth);
}

#[test]
fn lib_from_range_to_inclusive_works() {
    let range = Wrange::upto_inclusive(4u8);
    let found: Vec<u8> = range.to_vec();
    let truth = [0, 1, 2, 3, 4];
    assert_eq!(found, truth);
}

#[test]
fn lib_iter_count_works() {
    assert_eq!(Wrange::<u8>::from(0..4).count(), 4);
    assert_eq!(Wrange::<u8>::full().count(), 256);
    assert_eq!(Wrange::<u8>::from_start(252).count(), 4);
    assert_eq!(Wrange::<u8>::from(0..=4).count(), 5);
    assert_eq!(Wrange::<u8>::upto(4).count(), 4);
    assert_eq!(Wrange::<u8>::upto_inclusive(4).count(), 5);
}

#[test]
fn iter_edge_works() {
    // One item
    assert_eq!(Wrange::<u8>::from(0..1).count(), 1);
    assert_eq!(Wrange::<u8>::from_start(255).count(), 1);
    assert_eq!(Wrange::<u8>::from(0..=0).count(), 1);
    assert_eq!(Wrange::<u8>::upto(1).count(), 1);
    assert_eq!(Wrange::<u8>::upto_inclusive(0).count(), 1);
}

#[test]
fn wrange_count_matches_listing() {
    for (s, e) in [(0u8, 0u8), (250, 3), (3, 250), (255, 0), (0, 255)] {
        let r = Wrange::from(s..=e);
        assert_eq!(r.count(), r.to_vec().len());
    }
    let r = Wrange::<i16>::from(i16::MAX..i16::MIN + 2);
    assert_eq!(r.to_vec(), vec![i16::MAX, i16::MIN, i16::MIN + 1]);
    let r = Wrange::<u8>::from(5..5);
    assert_eq!(r.count(), 256);
}

#[test]
fn wrange_from_fresh_inclusive_range() {
    let fresh = Wrange::from(3u8..=5);
    assert_eq!(fresh.to_vec(), vec![3, 4, 5]);
}

#[test]
fn wrange_wider_integer_types() {
    assert_eq!(Wrange::from(u32::MAX - 1..=1).to_vec(), vec![u32::MAX - 1, u32::MAX, 0, 1]);
    assert_eq!(Wrange::from(i64::MAX..i64::MIN + 1).to_vec(), vec![i64::MAX, i64::MIN]);
    assert_eq!(Wrange::<u64>::from(0..3).count(), 3);
    assert_eq!(Wrange::from(usize::MAX..=usize::MAX).count(), 1);
    assert_eq!(Wrange::from(-2isize..=2).count(), 5);
    assert_eq!(Wrange::<i32>::from(0..=-1).count(), u32::MAX as usize + 1);
}

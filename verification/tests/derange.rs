use rugby::derange::Derange;

#[test]
fn from_range_works() {
    let range = Derange::from(126..-126);
    let found: Vec<i8> = range.to_vec();
    let truth = [126, 127, -128, -127];
    assert_eq!(found, truth);
}

#[test]
fn from_range_from_works() {
    let range = Derange::upto(4u8);
    let found: Vec<u8> = range.to_vec();
    let truth = [0, 1, 2, 3];
    assert_eq!(found, truth);
}

#[test]
fn from_range_full_works() {
    let range = Derange::<i8>::full();
    let found: Vec<i8> = range.to_vec();
    let truth: [i8; 256] = std::array::from_fn(|i| (i as i8).wrapping_add(-128));
    assert_eq!(found, truth);
}

#[test]
fn from_range_inclusive_works() {
    let range = Derange::from(254u8..=2);
    let found: Vec<u8> = range.to_vec();
    let truth = [254, 255, 0, 1, 2];
    assert_eq!(found, truth);
}

#[test]
fn from_range_to_works() {
    let range = Derange::upto(4u8);
    let found: Vec<u8> = range.to_vec();
    let truth = [0, 1, 2, 3];
    assert_eq!(found, truth);
}

#[test]
fn from_range_to_inclusive_works() {
    let range = Derange::upto_inclusive(4u8);
    let found: Vec<u8> = range.to_vec();
    let truth = [0, 1, 2, 3, 4];
    assert_eq!(found, truth);
}

#[test]
fn iter_count_works() {
    assert_eq!(Derange::<u8>::from(0..4).count(), 4);
    assert_eq!(Derange::<u8>::full().count(), 256);
    assert_eq!(Derange::<u8>::from_start(252).count(), 4);
    assert_eq!(Derange::<u8>::from(0..=4).count(), 5);
    assert_eq!(Derange::<u8>::upto(4).count(), 4);
    assert_eq!(Derange::<u8>::upto_inclusive(4).count(), 5);
}

#[test]
fn edge_works() {
    // One item
    assert_eq!(Derange::<u8>::from(0..1).count(), 1);
    assert_eq!(Derange::<u8>::from_start(255).count(), 1);
    assert_eq!(Derange::<u8>::from(0..=0).count(), 1);
    assert_eq!(Derange::<u8>::upto(1).count(), 1);
    assert_eq!(Derange::<u8>::upto_inclusive(0).count(), 1);
}

#[test]
fn derange_count_matches_listing() {
    for (s, e) in [(0u8, 0u8), (250, 3), (3, 250), (255, 0), (0, 255)] {
        let r = Derange::from(s..=e);
        assert_eq!(r.count(), r.to_vec().len());
    }
    let r = Derange::<i16>::from(i16::MAX..i16::MIN + 2);
    assert_eq!(r.to_vec(), vec![i16::MAX, i16::MIN, i16::MIN + 1]);
    let r = Derange::<u8>::from(5..5);
    assert_eq!(r.count(), 256);
}

use rugby::dmg::spec::{Button, Color};
use rugby::enuf::Enuf;

#[test]
fn enuf_set_and_get_flags() {
    let mut flag: u8 = 0;
    Button::A.set(&mut flag, true);
    assert_eq!(flag, 0b0010_0001);
    assert!(Button::A.get(&flag));
    assert!(Button::B.get(&flag)); // shares the row bit
    Button::Up.set(&mut flag, true);
    assert_eq!(flag, 0b0011_0101);
    Button::A.set(&mut flag, false);
    assert_eq!(flag, 0b0001_0100);
    assert!(!Button::A.get(&0));
}

#[test]
fn dmg_colors_number_from_lightest() {
    assert_eq!(usize::from(Color::default()), 0);
    assert_eq!(usize::from(Color::C3), 3);
}

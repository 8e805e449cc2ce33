use rugby::chex::{Color, Error};

#[test]
fn rgb_works() {
    assert_eq!(Color::rgb(0x11, 0x22, 0x33), Color::new(0x112233));
}

#[test]
fn lib_parse_works() {
    assert_eq!("#123".parse::<Color>().unwrap(), Color::new(0x112233));
    assert_eq!("#123456".parse::<Color>().unwrap(), Color::new(0x123456));
    assert_eq!("#AbCdEf".parse::<Color>().unwrap(), Color::new(0xabcdef));
    assert_eq!("crimson".parse::<Color>().unwrap(), Color::new(0xdc143c));
}

#[test]
fn lib_parse_errors() {
    assert!(matches!("".parse::<Color>(), Err(Error::Empty)));
    assert!(matches!("shalom".parse::<Color>(), Err(Error::Unknown(_))));
    assert!(matches!("#error".parse::<Color>(), Err(Error::ParseInt(_))));
    assert!(matches!("#".parse::<Color>(), Err(Error::ParseInt(_))));
    assert!(matches!("#12".parse::<Color>(), Err(Error::Unsupported)));
    assert!(matches!("#1234".parse::<Color>(), Err(Error::Unsupported)));
    assert!(matches!("#1234567".parse::<Color>(), Err(Error::Unsupported)));
}

#[test]
fn chex_named_colors_and_display() {
    assert_eq!("rebeccapurple".parse::<Color>().unwrap(), Color::new(0x663399));
    assert_eq!("black".parse::<Color>().unwrap(), Color::new(0x000000));
    assert_eq!(Color::new(0x0000ff).to_string(), "#0000ff");
    assert_eq!(Color::rgb(0xab, 0xcd, 0xef).to_string(), "#abcdef");
    assert_eq!(u32::from(Color::new(0x123456)), 0x123456);
}

#[test]
fn chex_color_reads_back() {
    for v in [0x000000u32, 0x000001, 0x0a0b0c, 0xdc143c, 0xffffff] {
        let c = Color::new(v);
        assert_eq!(c.to_string().parse::<Color>().unwrap(), c);
    }
}

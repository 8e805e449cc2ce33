use rugby::hexicolor::{Color, Error};

#[test]
fn parse_works() {
    assert_eq!("#123".parse::<Color>().unwrap(), Color::new(0x0012_3123));
    assert_eq!("#123456".parse::<Color>().unwrap(), Color::new(0x0012_3456));
    assert_eq!("#AbCdEf".parse::<Color>().unwrap(), Color::new(0x00ab_cdef));
}

#[test]
fn parse_errors() {
    assert!(matches!("".parse::<Color>().unwrap_err(), Error::Empty));
    assert!(matches!("shalom".parse::<Color>().unwrap_err(), Error::MissingHash));
    assert!(matches!("#".parse::<Color>().unwrap_err(), Error::ParseInt(_)));
    assert!(matches!("#shalom".parse::<Color>().unwrap_err(), Error::ParseInt(_)));
    assert!(matches!("#12".parse::<Color>().unwrap_err(), Error::Unsupported));
    assert!(matches!("#1234".parse::<Color>().unwrap_err(), Error::Unsupported));
    assert!(matches!("#1234567".parse::<Color>().unwrap_err(), Error::Unsupported));
}

#[test]
fn hexicolor_rgb_and_display() {
    assert_eq!(Color::rgb(0x12, 0x34, 0x56), Color::new(0x123456));
    assert_eq!(Color::new(0x00ab_cdef).to_string(), "#abcdef");
    assert_eq!(Color::new(0x42).to_string(), "#000042");
}

#[test]
fn hexicolor_color_reads_back() {
    for v in [0x000000u32, 0x00f00d, 0x123456, 0xffffff] {
        let c = Color::new(v);
        assert_eq!(c.to_string().parse::<Color>().unwrap(), c);
    }
}

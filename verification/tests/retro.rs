use rugby::retro::dev::RETRO_DEVICE_SUBCLASS;
use rugby::retro::loc::retro_language;
use rugby::retro::pix::retro_pixel_format;

#[test]
fn retro_device_subclass_shifts_id() {
    assert_eq!(RETRO_DEVICE_SUBCLASS(1, 0), 0x101);
    assert_eq!(RETRO_DEVICE_SUBCLASS(5, 2), 0x305);
}

#[test]
fn retro_enums_number_as_in_c() {
    assert_eq!(retro_language::RETRO_LANGUAGE_ENGLISH.value(), 0);
    assert_eq!(retro_language::RETRO_LANGUAGE_NORWEGIAN.value(), 34);
    assert_eq!(retro_language::RETRO_LANGUAGE_LAST.value(), 35);
    assert_eq!(retro_language::RETRO_LANGUAGE_DUMMY.value(), i32::MAX);
    assert_eq!(retro_language::from_value(9), Some(retro_language::RETRO_LANGUAGE_RUSSIAN));
    assert_eq!(retro_language::from_value(36), None);
    assert_eq!(retro_pixel_format::RETRO_PIXEL_FORMAT_RGB565.value(), 2);
    assert_eq!(retro_pixel_format::from_value(1), Some(retro_pixel_format::RETRO_PIXEL_FORMAT_XRGB8888));
    assert_eq!(retro_pixel_format::from_value(3), None);
}

#[test]
fn retro_joypad_keys_press_console_buttons() {
    let keys = rugby::retro::dev::joypad_keys();
    assert_eq!(keys.len(), 8);
    assert_eq!(keys[0], (8, rugby::dmg::spec::Button::A));
    assert_eq!(keys[1], (0, rugby::dmg::spec::Button::B));
    assert_eq!(keys[7], (5, rugby::dmg::spec::Button::Down));
}

use rugby::phex::Printer;

#[test]
fn phex_prints_lines_of_words() {
    let data: Vec<u8> = (0u8..16).collect();
    let text = Printer::<u8>::new(0, &data).display();
    assert_eq!(text, "0x00: 00 01 02 03 04 05 06 07\n0x08: 08 09 0a 0b 0c 0d 0e 0f");
    let text = Printer::<u16>::new(0, &data).display();
    assert_eq!(text, "0x00: 0001 0203 0405 0607\n0x08: 0809 0a0b 0c0d 0e0f");
}

#[test]
fn phex_elides_repeated_lines() {
    let data = [0u8; 32];
    let text = Printer::<u8>::new(0, &data).display();
    assert_eq!(text, "0x00: 00 00 00 00 00 00 00 00\n....: 00 00 00 00 00 00 00 00");
}

#[test]
fn phex_offsets_addresses() {
    let data = [0xab_u8; 3];
    let text = Printer::<u8>::new(0x100, &data).display();
    assert_eq!(text, "0x100: ab ab ab");
}

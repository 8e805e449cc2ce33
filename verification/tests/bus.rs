use rugby::arch::bus::{Bus, Device};
use rugby::arch::mem::{Error, Memory, Ram, Rom};

fn setup() -> Bus {
    Bus::from([
        (0x000..=0x0ff, Device::dev(Ram::from([0; 0x100]))),
        (0x100..=0x1ff, Device::dev(Ram::from([1; 0x100]))),
        (0x200..=0x2ff, Device::dev(Ram::from([2; 0x100]))),
    ])
}

#[test]
fn new_works() {
    let bus = Bus::new();
    assert_eq!(bus.len(), 0);
}

#[test]
fn from_works() {
    setup();
}

#[test]
fn clear_works() {
    let mut bus = setup();
    bus.clear();
    assert_eq!(bus.len(), 0);
}

#[test]
fn map_works() {
    let bus = setup();
    assert!((0x000..=0x0ff).map(|idx| bus.read(idx)).all(|value| value == Ok(0)));
    assert!((0x100..=0x1ff).map(|idx| bus.read(idx)).all(|value| value == Ok(1)));
    assert!((0x200..=0x2ff).map(|idx| bus.read(idx)).all(|value| value == Ok(2)));
}

#[test]
fn map_overlapping_works() {
    let a = Bus::from([(0x0000..=0x9fff, Device::dev(Ram::from([0x55; 0xa000])))]);
    let b = Bus::from([(0x6000..=0xffff, Device::dev(Ram::from([0xaa; 0xa000])))]);
    let c = Bus::from([
        (0x0000..=0xffff, Device::dev(a)),
        (0x0000..=0xffff, Device::dev(b)),
    ]);
    assert_eq!(
        [
            c.read(0x0000),
            c.read(0x5fff),
            c.read(0x6000),
            c.read(0x9fff),
            c.read(0xa000),
            c.read(0xffff),
        ],
        [Ok(0x55), Ok(0x55), Ok(0x55), Ok(0x55), Ok(0xaa), Ok(0xaa)]
    );
}

#[test]
fn unmap_works() {
    let mut bus = Bus::new();
    let ram = Ram::from([0; 0x100]);
    let dev = Device::dev(ram);
    bus.map(0x000..=0x0ff, dev.clone());
    assert!(bus.unmap(&dev));
    assert!(bus.read(0).is_err());
}

#[test]
fn memory_read_mapped_works() {
    let bus = setup();
    (0x000..0x100).for_each(|i| assert_eq!(bus.read(i), Ok(0)));
    (0x100..0x200).for_each(|i| assert_eq!(bus.read(i), Ok(1)));
    (0x200..0x300).for_each(|i| assert_eq!(bus.read(i), Ok(2)));
}

#[test]
#[should_panic = "address is unmapped"]
fn memory_read_unmapped_panics() {
    let bus = setup();
    bus.read(0x301).expect("address is unmapped");
}

#[test]
fn memory_write_mapped_works() {
    let mut bus = setup();
    (0x000..0x300).for_each(|i| bus.write(i, 4).unwrap());
    (0x000..0x300).for_each(|i| assert_eq!(bus.read(i), Ok(4)));
}

#[test]
#[should_panic = "address is unmapped"]
fn memory_write_unmapped_panics() {
    let mut bus = setup();
    bus.write(0x301, 4).expect("address is unmapped");
}

#[test]
fn memory_read_write_overlapping_mapped_works() {
    let mut bus = Bus::new();
    // Device 0
    const N0: u16 = 1;
    const A0: u16 = 0x1000;
    let d0 = Device::dev(Ram::from([0xaa; N0 as usize]));
    bus.map(A0..=A0 + N0 - 1, d0);
    // Device 1
    const N1: u16 = 2;
    const A1: u16 = A0 + N0;
    let d1 = Device::dev(Ram::from([0xbb; N1 as usize]));
    bus.map(A1..=A1 + N1 - 1, d1);
    // Device 2
    const N2: u16 = 4;
    const A2: u16 = A1 + N1;
    let d2 = Device::dev(Ram::from([0xcc; N2 as usize]));
    bus.map(A2..=A2 + N2 - 1, d2);
    // Device 3
    const N3: u16 = 8;
    const A3: u16 = A2 + N2;
    let d3 = Device::dev(Ram::from([0xdd; N3 as usize]));
    bus.map(A3..=A3 + N3 - 1, d3);
    // Device 4
    const N4: u16 = 16;
    const A4: u16 = 0;
    let d4 = Device::dev(Ram::from([0xee; N4 as usize]));
    bus.map(A4..=A4 + N4 - 1, d4);
    // Device 5
    const N5: u16 = 128;
    const A5: u16 = A4;
    let d5 = Device::dev(Ram::from([0xff; N5 as usize]));
    bus.map(A5..=A5 + N5 - 1, d5);

    assert!((A0..A0 + N0).map(|index| bus.read(index)).all(|byte| byte == Ok(0xaa)));
    assert!((A1..A1 + N1).map(|index| bus.read(index)).all(|byte| byte == Ok(0xbb)));
    assert!((A2..A2 + N2).map(|index| bus.read(index)).all(|byte| byte == Ok(0xcc)));
    assert!((A3..A3 + N3).map(|index| bus.read(index)).all(|byte| byte == Ok(0xdd)));
    assert!((A4..A4 + N4).map(|index| bus.read(index)).all(|byte| byte == Ok(0xee)));
    assert!((A3 + N3..A5 + N5).map(|index| bus.read(index)).all(|byte| byte == Ok(0xff)));
}

#[test]
fn narrower_mapping_wins_regardless_of_order() {
    let mut bus = Bus::new();
    bus.map(0x00..=0xff, Device::dev(Ram::from([1; 0x100])));
    bus.map(0x10..=0x1f, Device::dev(Ram::from([2; 0x10])));
    assert_eq!(bus.read(0x0f), Ok(1));
    assert_eq!(bus.read(0x10), Ok(2));
    assert_eq!(bus.read(0x1f), Ok(2));
    assert_eq!(bus.read(0x20), Ok(1));
    bus.write(0x12, 9).unwrap();
    assert_eq!(bus.read(0x12), Ok(9));
    assert_eq!(bus.read(0x02), Ok(1));
}

#[test]
fn rom_refuses_writes_and_falls_through() {
    let mut bus = Bus::new();
    bus.map(0x00..=0x0f, Device::dev(Rom::from([7; 0x10])));
    bus.map(0x00..=0x3f, Device::dev(Ram::from([0; 0x40])));
    assert_eq!(bus.read(0x05), Ok(7));
    // The read-only memory refuses the write, which the RAM behind it takes.
    assert_eq!(bus.write(0x05, 3), Ok(()));
    assert_eq!(bus.read(0x05), Ok(7));
    assert_eq!(bus.read(0x25), Ok(0));
    let mut only_rom = Bus::from([(0x00..=0x0f, Device::dev(Rom::from([7; 0x10])))]);
    assert_eq!(only_rom.write(0x05, 3), Err(Error::Range));
}

#[test]
fn unmap_unknown_device_is_false() {
    let mut bus = setup();
    // A device with the same contents as a mapped one is another device.
    assert!(!bus.unmap(&Device::dev(Ram::from([1; 0x100]))));
    assert_eq!(bus.len(), 3);
    assert_eq!(bus.read(0x150), Ok(1));
    let dev = Device::dev(Ram::from([9; 0x10]));
    bus.map(0x400..=0x40f, dev.clone());
    bus.map(0x500..=0x50f, dev.clone());
    assert_eq!(bus.len(), 5);
    assert!(bus.unmap(&dev));
    assert_eq!(bus.len(), 3);
    assert_eq!(bus.read(0x400), Err(Error::Range));
    assert_eq!(bus.read(0x505), Err(Error::Range));
    assert!(!bus.unmap(&dev));
}

#[test]
fn nested_bus_offsets_addresses() {
    let inner = Bus::from([(0x10..=0x1f, Device::dev(Ram::from([3; 0x10])))]);
    let mut outer = Bus::new();
    outer.map(0x8000..=0x80ff, Device::dev(inner));
    assert_eq!(outer.read(0x8010), Ok(3));
    assert_eq!(outer.read(0x800f), Err(Error::Range));
    outer.write(0x801f, 8).unwrap();
    assert_eq!(outer.read(0x801f), Ok(8));
}

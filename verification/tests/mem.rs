use rugby::arch::mem::{Error, Memory, Ram, Rom};

#[test]
fn ram_memory_read_works() {
    let ram = Ram::from([0; 0x100]);
    assert_eq!(ram.read(0).unwrap(), 0x00);
    assert!(matches!(ram.read(0x100), Err(Error::Range)));
}

#[test]
fn ram_memory_write_works() {
    let mut ram = Ram::from([0; 0x100]);
    ram.write(0u16, 0xaa).unwrap();
    assert_eq!(ram.read(0).unwrap(), 0xaa);
    assert!(matches!(ram.write(0x100, 0), Err(Error::Range)));
}

#[test]
fn rom_memory_read_works() {
    let ram = Rom::from([0; 0x100]);
    assert_eq!(ram.read(0u16).unwrap(), 0x00);
    assert!(matches!(ram.read(0x100u16), Err(Error::Range)));
}

#[test]
fn rom_memory_write_works() {
    let mut ram = Rom::from([0; 0x100]);
    assert!(matches!(ram.write(0, 0xaa), Err(Error::Misuse)));
    assert_eq!(ram.read(0).unwrap(), 0x00);
    assert!(matches!(ram.write(0x100, 0), Err(Error::Range)));
}

#[test]
fn ram_over_vec_and_inner_access() {
    let mut ram = Ram::from(vec![1u8, 2, 3]);
    assert_eq!(ram.read(2), Ok(3));
    ram.write(1, 9).unwrap();
    assert_eq!(ram.inner(), &vec![1u8, 9, 3]);
    ram.inner_mut()[0] = 7;
    assert_eq!(ram.read(0), Ok(7));
    assert_eq!(ram.read(1), Ok(9));
    assert_eq!(ram.write(3, 0), Err(Error::Range));
}

#[test]
fn rom_inner_mut_writes_through() {
    let mut rom = Rom::from([5u8; 4]);
    rom.inner_mut()[3] = 6;
    assert_eq!(rom.read(3), Ok(6));
    assert_eq!(rom.write(3, 1), Err(Error::Misuse));
    assert_eq!(rom.inner(), &[5, 5, 5, 6]);
}

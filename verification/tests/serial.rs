use rugby::arch::mem::Memory;
use rugby::arch::reg::Register;
use rugby::parts::serial::Sc;

#[test]
fn sc_unused_bits_read_as_one() {
    let sc = Sc::default();
    assert_eq!(sc.load(), 0x7e);
    assert!(!sc.ena());
    assert!(!sc.clk());
    assert_eq!(sc.bit(), 0);
}

#[test]
fn sc_store_starts_transfer_sequence() {
    let mut sc = Sc::default();
    sc.store(0x81);
    assert_eq!(sc.load(), 0xff);
    assert!(sc.ena());
    assert!(sc.clk());
    assert_eq!(sc.bit(), 0x80);
    sc.set_ena(false);
    assert_eq!(sc.load(), 0x7f);
    assert_eq!(sc.bit(), 0x80);
}

#[test]
fn sc_memory_accesses_the_register() {
    let mut sc = Sc::default();
    assert_eq!(sc.write(0x1234, 0x01), Ok(()));
    assert_eq!(sc.read(0), Ok(0x7f));
    assert!(sc.clk());
    assert!(!sc.ena());
}

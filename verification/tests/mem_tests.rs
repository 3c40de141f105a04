use emuzcs::fault::Fault;
use emuzcs::mem::Mem;

#[test]
fn new_memory_is_zero_filled() {
    let m = Mem::new(8);
    for addr in 0..8usize {
        assert_eq!(m.read(addr), Ok(0));
    }
}

#[test]
fn read_beyond_capacity_is_an_out_of_range_fault() {
    let m = Mem::new(4);
    assert_eq!(m.read(3), Ok(0));
    assert_eq!(m.read(4), Err(Fault::OutOfRange));
    assert_eq!(m.read(usize::MAX), Err(Fault::OutOfRange));
}

#[test]
fn write_beyond_capacity_is_an_out_of_range_fault() {
    let mut m = Mem::new(4);
    assert_eq!(m.write(3, 0xAB), Ok(()));
    assert_eq!(m.read(3), Ok(0xAB));
    assert_eq!(m.write(4, 0xCD), Err(Fault::OutOfRange));
    assert_eq!(m.read(3), Ok(0xAB));
}

#[test]
fn load_copies_bytes_from_address_zero() {
    let mut m = Mem::new(4);
    assert_eq!(m.write(3, 0x77), Ok(()));
    assert_eq!(m.load(vec![1, 2, 3]), Ok(()));
    assert_eq!(m.read(0), Ok(1));
    assert_eq!(m.read(1), Ok(2));
    assert_eq!(m.read(2), Ok(3));
    assert_eq!(m.read(3), Ok(0x77));
}

#[test]
fn load_longer_than_capacity_is_an_out_of_range_fault() {
    let mut m = Mem::new(2);
    assert_eq!(m.load(vec![1, 2, 3]), Err(Fault::OutOfRange));
    assert_eq!(m.read(0), Ok(0));
    assert_eq!(m.read(1), Ok(0));
}

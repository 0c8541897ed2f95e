use sevenz_rust2::reader::read_bits;
use sevenz_rust2::write_bit_set;
use sevenz_rust2::BitSet;
use sevenz_rust2::ByteCursor;

#[test]
fn test_bitset_basic() {
    let mut bs = BitSet::new();
    assert_eq!(bs.len(), 0);

    assert!(bs.insert(0));
    assert!(bs.insert(3));
    assert!(bs.insert(7));
    assert!(!bs.insert(3));

    assert_eq!(bs.len(), 3);

    assert!(bs.contains(0));
    assert!(!bs.contains(1));
    assert!(!bs.contains(2));
    assert!(bs.contains(3));
    assert!(!bs.contains(4));
    assert!(!bs.contains(5));
    assert!(!bs.contains(6));
    assert!(bs.contains(7));

    assert!(bs.remove(3));
    assert!(!bs.remove(3));
    assert!(!bs.contains(3));
    assert_eq!(bs.len(), 2);
}

#[test]
fn test_bitset_with_capacity() {
    let mut bs = BitSet::with_capacity(100);
    assert_eq!(bs.len(), 0);

    bs.insert(150);
    assert!(bs.contains(150));
}

#[test]
fn test_bitset_bit_count() {
    let mut bs = BitSet::new();
    bs.insert(0);
    bs.insert(10);
    bs.insert(63);

    assert!(bs.capacity() >= 64);
}

#[test]
fn test_bitset_serialization() {
    let mut bs = BitSet::new();
    bs.insert(0);
    bs.insert(3);
    bs.insert(7);
    bs.insert(8);
    bs.insert(15);

    let mut buffer = Vec::new();
    write_bit_set(&mut buffer, &bs);

    assert_eq!(buffer, vec![0b10010001, 0b10000001]);

    let mut cursor = ByteCursor::new(buffer);
    let deserialized = read_bits(&mut cursor, 16).unwrap();
    assert!(deserialized.contains(0));
    assert!(!deserialized.contains(1));
    assert!(!deserialized.contains(2));
    assert!(deserialized.contains(3));
    assert!(!deserialized.contains(4));
    assert!(!deserialized.contains(5));
    assert!(!deserialized.contains(6));
    assert!(deserialized.contains(7));
    assert!(deserialized.contains(8));
    assert!(!deserialized.contains(9));
    assert!(!deserialized.contains(14));
    assert!(deserialized.contains(15));
}

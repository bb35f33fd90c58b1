use ir_trace::eth2_input::{build_test_input, write_bool, write_bytes, write_u32, write_u64, write_u8};
use ir_trace::trace_format::sha256;

#[test]
fn test_ten_validators_input_size() {
    // The benchmark input for ten validators is 79,510 bytes.
    assert_eq!(build_test_input(10).len(), 79_510);
}

#[test]
fn test_input_sizes_and_digests() {
    let one = build_test_input(1);
    assert_eq!(one.len(), 78_187);
    let d = sha256(&one);
    assert_eq!(&d[..4], &[0x8a, 0xaf, 0x60, 0xfe]);
    let ten = sha256(&build_test_input(10));
    assert_eq!(&ten[..4], &[0x9f, 0x8b, 0x9d, 0x02]);
    assert_eq!(build_test_input(300).len(), 122_140);
}

#[test]
fn test_input_starts_with_genesis_time() {
    let data = build_test_input(3);
    assert_eq!(&data[..8], &1_000_000u64.to_le_bytes());
    assert_eq!(&data[8..12], &32u32.to_le_bytes());
}

#[test]
fn test_proposer_index_wraps_around_validators() {
    for n in [1usize, 7, 10, 200] {
        let data = build_test_input(n);
        // proposer_index sits after the block slot; the block is 408 bytes long.
        let block = &data[data.len() - 408..];
        assert_eq!(&block[..8], &101u64.to_le_bytes());
        assert_eq!(&block[8..16], &(101 % n as u64).to_le_bytes());
    }
}

#[test]
fn test_writers() {
    let mut buf = Vec::new();
    write_u64(&mut buf, 0x0102030405060708);
    write_u32(&mut buf, 0xAABBCCDD);
    write_u8(&mut buf, 7);
    write_bool(&mut buf, true);
    write_bool(&mut buf, false);
    write_bytes(&mut buf, &[9, 9]);
    assert_eq!(buf, vec![8, 7, 6, 5, 4, 3, 2, 1, 0xDD, 0xCC, 0xBB, 0xAA, 7, 1, 0, 2, 0, 0, 0, 9, 9]);
}

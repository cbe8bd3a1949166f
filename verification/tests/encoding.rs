use policy_agent::encoding::append_bytes;
use policy_agent::encoding::append_i64;
use policy_agent::encoding::append_u64;
use policy_agent::encoding::same_bytes;
use policy_agent::encoding::to_twos_complement;

#[test]
fn append_u64_writes_little_endian() {
    for x in [0u64, 1, 255, 256, 1000, 0x0102_0304_0506_0708, u64::MAX - 1, u64::MAX] {
        let mut out: Vec<u8> = Vec::new();
        append_u64(&mut out, x);
        assert_eq!(out, x.to_le_bytes().to_vec());
    }
}

#[test]
fn append_u64_of_one_thousand() {
    let mut out: Vec<u8> = vec![9];
    append_u64(&mut out, 1000);
    assert_eq!(out, vec![9, 232, 3, 0, 0, 0, 0, 0, 0]);
}

#[test]
fn append_i64_writes_twos_complement() {
    for x in [0i64, 1, -1, 127, -128, 1_900_000_000, -1_900_000_000, i64::MAX, i64::MIN, i64::MIN + 1] {
        let mut out: Vec<u8> = Vec::new();
        append_i64(&mut out, x);
        assert_eq!(out, x.to_le_bytes().to_vec());
    }
}

#[test]
fn append_i64_of_minus_one_is_all_ones() {
    let mut out: Vec<u8> = Vec::new();
    append_i64(&mut out, -1);
    assert_eq!(out, vec![255u8; 8]);
}

#[test]
fn twos_complement_keeps_the_bit_pattern() {
    assert_eq!(to_twos_complement(0), 0);
    assert_eq!(to_twos_complement(5), 5);
    assert_eq!(to_twos_complement(i64::MAX), 0x7fff_ffff_ffff_ffff);
    assert_eq!(to_twos_complement(-1), u64::MAX);
    assert_eq!(to_twos_complement(-2), u64::MAX - 1);
    assert_eq!(to_twos_complement(i64::MIN), 0x8000_0000_0000_0000);
    for x in [-77i64, 77, i64::MIN + 3, i64::MAX - 3] {
        assert_eq!(to_twos_complement(x), x as u64);
    }
}

#[test]
fn append_bytes_keeps_what_was_there() {
    let mut out: Vec<u8> = vec![1, 2];
    append_bytes(&mut out, &[3, 4, 5]);
    assert_eq!(out, vec![1, 2, 3, 4, 5]);
    append_bytes(&mut out, &[]);
    assert_eq!(out, vec![1, 2, 3, 4, 5]);
}

#[test]
fn same_bytes_compares_every_byte() {
    let a = [5u8; 32];
    let mut b = [5u8; 32];
    assert!(same_bytes(&a, &b));
    b[31] = 6;
    assert!(!same_bytes(&a, &b));
    b[31] = 5;
    b[0] = 4;
    assert!(!same_bytes(&a, &b));
}

use sc64::bytes::{
    apply_swap, args_from_vec, detect_swap, u16_from_vec, u32_from_vec, u32_to_vec, SwapKind,
};

#[test]
fn u16_reads_big_endian() {
    assert_eq!(u16_from_vec(&[0x12, 0x34]), Some(0x1234));
    assert_eq!(u16_from_vec(&[0x12, 0x34, 0xFF]), Some(0x1234));
    assert_eq!(u16_from_vec(&[0x12]), None);
}

#[test]
fn u32_reads_big_endian() {
    assert_eq!(u32_from_vec(&[0x12, 0x34, 0x56, 0x78]), Some(0x1234_5678));
    assert_eq!(u32_from_vec(&[0xFF, 0xFF, 0xFF, 0xFF, 0x00]), Some(0xFFFF_FFFF));
    assert_eq!(u32_from_vec(&[0x12, 0x34, 0x56]), None);
}

#[test]
fn args_pack_eight_bytes() {
    let args = args_from_vec(&[1, 2, 3, 4, 5, 6, 7, 8]).unwrap();
    assert_eq!(args[0], 0x0102_0304);
    assert_eq!(args[1], 0x0506_0708);
    assert_eq!(args_from_vec(&[1, 2, 3, 4, 5, 6, 7]), None);
}

#[test]
fn u32_write_then_read_roundtrip() {
    for v in [0u32, 1, 0x1234_5678, 0xFFFF_FFFF, 0x8000_0000] {
        let bytes = u32_to_vec(v);
        assert_eq!(u32_from_vec(&bytes), Some(v));
    }
}

#[test]
fn detects_both_magic_patterns() {
    assert_eq!(detect_swap(&[0x37, 0x80, 0x40, 0x12, 0, 0]), SwapKind::Swap16);
    assert_eq!(detect_swap(&[0x40, 0x12, 0x37, 0x80]), SwapKind::Swap32);
    assert_eq!(detect_swap(&[0x80, 0x37, 0x12, 0x40]), SwapKind::Canonical);
    assert_eq!(detect_swap(&[0x37, 0x80]), SwapKind::Canonical);
}

#[test]
fn swap16_exchanges_pairs() {
    let mut data = vec![1u8, 2, 3, 4, 5];
    apply_swap(SwapKind::Swap16, &mut data);
    assert_eq!(data, vec![2u8, 1, 4, 3, 5]);
}

#[test]
fn swap32_reverses_groups() {
    let mut data = vec![1u8, 2, 3, 4, 5, 6, 7, 8, 9, 10];
    apply_swap(SwapKind::Swap32, &mut data);
    assert_eq!(data, vec![4u8, 3, 2, 1, 8, 7, 6, 5, 9, 10]);
}

#[test]
fn each_swap_is_its_own_inverse() {
    let original: Vec<u8> = (0u8..=250).collect();
    for kind in [SwapKind::Canonical, SwapKind::Swap16, SwapKind::Swap32] {
        let mut data = original.clone();
        apply_swap(kind, &mut data);
        apply_swap(kind, &mut data);
        assert_eq!(data, original);
    }
}

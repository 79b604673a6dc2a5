use bc6h_compression::bytes::{push_bytes, push_u32_le, push_u64_le, read_u32_le, read_u64_le, words_to_le_bytes};

#[test]
fn u32_little_endian_order() {
    let mut out = Vec::new();
    push_u32_le(&mut out, 0x11223344);
    assert_eq!(out, vec![0x44, 0x33, 0x22, 0x11]);
}

#[test]
fn u64_little_endian_order() {
    let mut out = Vec::new();
    push_u64_le(&mut out, 0x1122334455667788);
    assert_eq!(out, vec![0x88, 0x77, 0x66, 0x55, 0x44, 0x33, 0x22, 0x11]);
}

#[test]
fn words_concatenate_in_order() {
    let words = vec![1u32, 0x200];
    assert_eq!(words_to_le_bytes(&words), vec![1, 0, 0, 0, 0, 2, 0, 0]);
}

#[test]
fn append_keeps_existing_prefix() {
    let mut out = vec![9u8];
    push_bytes(&mut out, &vec![1, 2, 3]);
    assert_eq!(out, vec![9, 1, 2, 3]);
}

#[test]
fn reads_invert_writes() {
    let mut out = Vec::new();
    push_u32_le(&mut out, 0xdeadbeef);
    push_u64_le(&mut out, 0x0123456789abcdef);
    assert_eq!(read_u32_le(&out, 0), 0xdeadbeef);
    assert_eq!(read_u64_le(&out, 4), 0x0123456789abcdef);
}

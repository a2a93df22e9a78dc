use tigertrust::codec::{append_bytes, append_le, read_le, to_signed, to_unsigned};

#[test]
fn append_le_writes_the_lowest_byte_first() {
    let mut out = vec![9u8];
    append_le(&mut out, 0x0102_0304_0506_0708, 8);
    assert_eq!(out, vec![9, 8, 7, 6, 5, 4, 3, 2, 1]);
}

#[test]
fn append_le_pads_with_zeroes() {
    let mut out = Vec::new();
    append_le(&mut out, 720, 4);
    assert_eq!(out, vec![208, 2, 0, 0]);
}

#[test]
fn append_le_keeps_only_the_width_asked_for() {
    let mut out = Vec::new();
    append_le(&mut out, 0x0001_0203, 2);
    assert_eq!(out, vec![3, 2]);
    append_le(&mut out, 77, 0);
    assert_eq!(out, vec![3, 2]);
}

#[test]
fn append_bytes_copies() {
    let mut out = vec![1u8, 2];
    append_bytes(&mut out, &[3, 4, 5]);
    assert_eq!(out, vec![1, 2, 3, 4, 5]);
    append_bytes(&mut out, &[]);
    assert_eq!(out, vec![1, 2, 3, 4, 5]);
}

#[test]
fn read_le_reads_at_an_offset() {
    let bytes = [0xffu8, 208, 2, 0xff, 1, 0, 0, 0, 0, 0, 0, 0x80];
    assert_eq!(read_le(&bytes, 1, 2), 720);
    assert_eq!(read_le(&bytes, 4, 8), 0x8000_0000_0000_0001);
    assert_eq!(read_le(&bytes, 0, 1), 255);
    assert_eq!(read_le(&bytes, 5, 0), 0);
}

#[test]
fn read_le_undoes_append_le() {
    for value in [0u64, 1, 255, 256, 65_535, 1 << 32, u64::MAX - 1, u64::MAX] {
        let mut out = vec![0u8; 3];
        append_le(&mut out, value, 8);
        assert_eq!(out.len(), 11);
        assert_eq!(read_le(&out, 3, 8), value);
    }
}

#[test]
fn twos_complement_of_signed_values() {
    assert_eq!(to_unsigned(0), 0);
    assert_eq!(to_unsigned(1), 1);
    assert_eq!(to_unsigned(i64::MAX), 0x7fff_ffff_ffff_ffff);
    assert_eq!(to_unsigned(-1), u64::MAX);
    assert_eq!(to_unsigned(-2), u64::MAX - 1);
    assert_eq!(to_unsigned(i64::MIN), 0x8000_0000_0000_0000);
}

#[test]
fn signed_values_of_twos_complement() {
    assert_eq!(to_signed(0), 0);
    assert_eq!(to_signed(0x7fff_ffff_ffff_ffff), i64::MAX);
    assert_eq!(to_signed(0x8000_0000_0000_0000), i64::MIN);
    assert_eq!(to_signed(u64::MAX), -1);
    for value in [i64::MIN, -1_700_000_000, -1, 0, 1, 1_700_000_000, i64::MAX] {
        assert_eq!(to_signed(to_unsigned(value)), value);
    }
}

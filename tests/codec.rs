use ethercat::codec::{push_field, CodecError, Field, Layout};

fn field(bits: u32, pre_skip: u32, post_skip: u32) -> Field {
    Field { bits, pre_skip, post_skip }
}

fn mixed_layout() -> Layout {
    // 3 + (2 + 5) + (1 + 32 + 5) + 16 = 64 bits = 8 bytes
    let mut f = Vec::new();
    push_field(&mut f, field(3, 0, 0));
    push_field(&mut f, field(5, 2, 0));
    push_field(&mut f, field(32, 1, 5));
    push_field(&mut f, field(16, 0, 0));
    Layout::new(f, 8).unwrap()
}

#[test]
fn round_trip_mixed_widths() {
    let l = mixed_layout();
    let values = [5u64, 0x1F, 0xDEAD_BEEF, 0x8001];
    let bytes = l.encode(&values).unwrap();
    assert_eq!(bytes.len(), 8);
    assert_eq!(l.decode(&bytes).unwrap(), values.to_vec());
}

#[test]
fn round_trip_full_width_field() {
    let l = Layout::new(vec![field(64, 0, 0)], 8).unwrap();
    for v in [0u64, 1, u64::MAX, 0x0123_4567_89AB_CDEF] {
        let bytes = l.encode(&[v]).unwrap();
        assert_eq!(bytes.len(), 8);
        assert_eq!(l.decode(&bytes).unwrap(), vec![v]);
    }
    let bytes = l.encode(&[0x0123_4567_89AB_CDEF]).unwrap();
    assert_eq!(bytes, vec![0xEF, 0xCD, 0xAB, 0x89, 0x67, 0x45, 0x23, 0x01]);
}

#[test]
fn encode_packs_lsb_first_and_zeroes_skips() {
    let l = Layout::new(vec![field(4, 0, 0), field(4, 0, 0)], 1).unwrap();
    assert_eq!(l.encode(&[0x3, 0xA]).unwrap(), vec![0xA3]);
    let skipping = Layout::new(vec![field(1, 1, 2), field(2, 2, 0)], 1).unwrap();
    assert_eq!(skipping.encode(&[1, 3]).unwrap(), vec![0b1100_0010]);
    assert_eq!(skipping.decode(&[0xFF]).unwrap(), vec![1, 3]);
}

#[test]
fn encode_returns_declared_length() {
    let l = mixed_layout();
    assert_eq!(l.encode(&[0, 0, 0, 0]).unwrap(), vec![0u8; 8]);
    assert_eq!(l.len(), 8);
    assert_eq!(l.field_count(), 4);
}

#[test]
fn layout_with_wrong_total_is_refused() {
    assert_eq!(
        Layout::new(vec![field(8, 0, 0), field(7, 0, 0)], 2).err(),
        Some(CodecError::ConfigurationError)
    );
    assert_eq!(
        Layout::new(vec![field(8, 0, 0), field(8, 1, 0)], 2).err(),
        Some(CodecError::ConfigurationError)
    );
    assert_eq!(Layout::new(vec![], 1).err(), Some(CodecError::ConfigurationError));
    assert!(Layout::new(vec![], 0).is_ok());
}

#[test]
fn layout_with_bad_field_width_is_refused() {
    assert_eq!(
        Layout::new(vec![field(0, 8, 0)], 1).err(),
        Some(CodecError::ConfigurationError)
    );
    assert_eq!(
        Layout::new(vec![field(65, 0, 7)], 9).err(),
        Some(CodecError::ConfigurationError)
    );
}

#[test]
fn decode_length_mismatch() {
    let l = mixed_layout();
    assert_eq!(
        l.decode(&[0u8; 7]),
        Err(CodecError::LengthMismatch { expected: 8, actual: 7 })
    );
    assert_eq!(
        l.decode(&[0u8; 9]),
        Err(CodecError::LengthMismatch { expected: 8, actual: 9 })
    );
}

#[test]
fn encode_rejects_wide_value_and_wrong_count() {
    let l = mixed_layout();
    assert_eq!(l.encode(&[8, 0, 0, 0]), Err(CodecError::ValueTooWide { field: 0 }));
    assert_eq!(l.encode(&[7, 32, 0, 0x1_0000]), Err(CodecError::ValueTooWide { field: 1 }));
    assert_eq!(
        l.encode(&[1, 2, 3]),
        Err(CodecError::FieldCountMismatch { expected: 4, actual: 3 })
    );
}

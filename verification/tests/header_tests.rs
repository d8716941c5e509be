use fusion_kbd::header::Header;

#[test]
fn checksum_concrete() {
    // sum = 8 + 0 + 3 + 5 + 20 + 4 + 0 = 40; checksum = !40 = 215
    let h = Header::new(0x08, 0x03, 5, 20, 4);
    assert_eq!(h.kind, 0x08);
    assert_eq!(h.reserved, 0);
    assert_eq!(h.mode, 0x03);
    assert_eq!(h.speed_length, 5);
    assert_eq!(h.brightness, 20);
    assert_eq!(h.color, 4);
    assert_eq!(h.reserved2, 0);
    assert_eq!(h.checksum, 215);
}

#[test]
fn checksum_matches_complement_of_wrapping_sum() {
    let cases: [(u8, u8, u8, u8, u8); 4] = [
        (0x08, 0x03, 5, 20, 4),
        (0x12, 0x04, 0x08, 0, 0),
        (0x92, 0x00, 0, 0, 0),
        (200, 200, 200, 200, 200),
    ];
    for (kind, mode, speed, brightness, color) in cases {
        let h = Header::new(kind, mode, speed, brightness, color);
        let bytes = h.to_bytes();
        let sum7 = bytes[..7].iter().fold(0u8, |acc, b| acc.wrapping_add(*b));
        assert_eq!(h.checksum, !sum7);
    }
}

#[test]
fn sum_of_all_eight_bytes_wraps_to_ff() {
    let cases: [(u8, u8, u8, u8, u8); 4] = [
        (0x08, 0x03, 5, 20, 4),
        (0, 0, 0, 0, 0),
        (255, 255, 255, 255, 255),
        (200, 200, 200, 200, 200),
    ];
    for (kind, mode, speed, brightness, color) in cases {
        let h = Header::new(kind, mode, speed, brightness, color);
        let total = h.to_bytes().iter().fold(0u8, |acc, b| acc.wrapping_add(*b));
        assert_eq!(total, 0xFF);
    }
}

#[test]
fn wire_layout_order_and_length() {
    let h = Header::new(0x12, 0x02, 0x08, 0x00, 0x00);
    let bytes = h.to_bytes();
    assert_eq!(bytes.len(), 8);
    assert_eq!(
        bytes,
        vec![h.kind, h.reserved, h.mode, h.speed_length, h.brightness, h.color, h.reserved2, h.checksum]
    );
    assert_eq!(bytes[1], 0);
    assert_eq!(bytes[6], 0);
}

#[test]
fn checksum_sensitive_to_each_field() {
    let base = Header::new(0x08, 0x03, 5, 20, 4);
    let mutated = [
        Header::new(0x09, 0x03, 5, 20, 4),
        Header::new(0x08, 0x04, 5, 20, 4),
        Header::new(0x08, 0x03, 6, 20, 4),
        Header::new(0x08, 0x03, 5, 21, 4),
        Header::new(0x08, 0x03, 5, 20, 5),
    ];
    for m in mutated {
        assert_ne!(m.checksum, base.checksum);
    }
}

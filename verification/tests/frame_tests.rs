use simnation::frame::{
    read_frame, FrameRead, CARGO_DAMAGE, FRAME_LEN, GEAR_OFFSET, LIMIT_OFFSET, SPEED_OFFSET,
    TRAILER_BODY, WEAR_ENGINE,
};

fn put(b: &mut [u8], at: usize, v: u32) {
    b[at..at + 4].copy_from_slice(&v.to_le_bytes());
}

#[test]
fn frame_too_short_or_idle() {
    assert_eq!(read_frame(&[]), FrameRead::TooShort);
    assert_eq!(read_frame(&[0u8; 10]), FrameRead::SdkIdle);
    assert_eq!(read_frame(&[1u8; 10]), FrameRead::TooShort);
    assert_eq!(read_frame(&vec![1u8; FRAME_LEN - 1]), FrameRead::TooShort);
}

#[test]
fn frame_fields_decode_little_endian() {
    let mut b = vec![0u8; FRAME_LEN];
    b[0] = 1;
    put(&mut b, GEAR_OFFSET, (-2i32) as u32);
    put(&mut b, SPEED_OFFSET, 25.0f32.to_bits());
    put(&mut b, LIMIT_OFFSET, 0x0102_0304);
    put(&mut b, WEAR_ENGINE, 0.5f32.to_bits());
    put(&mut b, CARGO_DAMAGE, 0.25f32.to_bits());
    put(&mut b, TRAILER_BODY, 0xdead_beef);
    match read_frame(&b) {
        FrameRead::Live(t) => {
            assert_eq!(t.gear, -2);
            assert_eq!(f32::from_bits(t.speed), 25.0);
            assert_eq!(t.limit, 0x0102_0304);
            assert_eq!(t.trailer_body, 0xdead_beef);
            assert_eq!(t.rpm, 0);
            let d = t.damage_bits();
            assert_eq!(d.len(), 9);
            assert_eq!(f32::from_bits(d[0]), 0.5);
            assert_eq!(f32::from_bits(d[8]), 0.25);
            assert_eq!(d[7], 0xdead_beef);
        }
        other => panic!("expected a live frame, got {:?}", other),
    }
}

#[test]
fn frame_gear_extremes() {
    let mut b = vec![0u8; FRAME_LEN + 8];
    b[0] = 0xff;
    put(&mut b, GEAR_OFFSET, 0x8000_0000);
    match read_frame(&b) {
        FrameRead::Live(t) => assert_eq!(t.gear, i32::MIN),
        other => panic!("expected a live frame, got {:?}", other),
    }
    put(&mut b, GEAR_OFFSET, 0x7fff_ffff);
    match read_frame(&b) {
        FrameRead::Live(t) => assert_eq!(t.gear, i32::MAX),
        other => panic!("expected a live frame, got {:?}", other),
    }
}

#[test]
fn frame_ignores_bytes_outside_fields() {
    let mut a = vec![0u8; FRAME_LEN];
    a[0] = 1;
    put(&mut a, SPEED_OFFSET, 12345);
    let mut b = a.clone();
    b[1] = 0x55;
    b[100] = 0xaa;
    b[1100] = 7;
    assert_eq!(read_frame(&a), read_frame(&b));
}

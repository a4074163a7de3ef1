use slint_shader::uniform::TimeUniform;
use slint_shader::uniform::UNIFORM_SIZE;

#[test]
fn uniform_is_sixteen_bytes() {
    assert_eq!(UNIFORM_SIZE, 16);
    assert_eq!(UNIFORM_SIZE % 16, 0);
    assert_eq!(TimeUniform { time: 0 }.to_bytes().len(), UNIFORM_SIZE);
    assert_eq!(TimeUniform { time: u32::MAX }.to_bytes().len(), UNIFORM_SIZE);
}

#[test]
fn uniform_of_zero_time_is_all_zero() {
    let bytes = TimeUniform { time: 0.0f32.to_bits() }.to_bytes();
    assert_eq!(bytes, vec![0u8; 16]);
}

#[test]
fn uniform_holds_the_time_then_zero_padding() {
    let time = 2.5f32;
    let bytes = TimeUniform { time: time.to_bits() }.to_bytes();
    assert_eq!(&bytes[0..4], &time.to_ne_bytes()[..]);
    assert_eq!(&bytes[4..16], &[0u8; 12][..]);
}

#[test]
fn uniform_bytes_follow_the_byte_order_of_the_machine() {
    let bytes = TimeUniform { time: 0x0102_0304 }.to_bytes();
    let little = [4u8, 3, 2, 1];
    let big = [1u8, 2, 3, 4];
    assert!(bytes[0..4] == little || bytes[0..4] == big);
    assert_eq!(&bytes[0..4], &0x0102_0304u32.to_ne_bytes()[..]);
    assert_eq!(&bytes[4..16], &[0u8; 12][..]);
}

#[test]
fn uniform_matches_a_record_of_four_floats() {
    let record: [f32; 4] = [1.0, 0.0, 0.0, 0.0];
    let expected: &[u8] = bytemuck::cast_slice(&record);
    let bytes = TimeUniform { time: 1.0f32.to_bits() }.to_bytes();
    assert_eq!(&bytes[..], expected);
}

#[test]
fn uniform_time_can_be_read_back() {
    for seconds in [0.0f32, 1.0, 2.0, 3.0, 0.016, 86_400.0, 1.0e-9] {
        let bytes = TimeUniform { time: seconds.to_bits() }.to_bytes();
        let read = f32::from_ne_bytes([bytes[0], bytes[1], bytes[2], bytes[3]]);
        assert_eq!(read.to_bits(), seconds.to_bits());
    }
}

#[test]
fn uniforms_compare_by_their_time() {
    assert_eq!(TimeUniform { time: 7 }, TimeUniform { time: 7 });
    assert_ne!(TimeUniform { time: 7 }, TimeUniform { time: 8 });
}

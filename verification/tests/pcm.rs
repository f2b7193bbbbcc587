use panda_playground::pcm::{
    samples_from_bytes, samples_to_bytes, FRAME_BYTES, OPUS_FRAME_SAMPLES,
};

#[test]
fn samples_are_little_endian() {
    let bytes = [0x00, 0x00, 0x01, 0x00, 0xff, 0x7f, 0x00, 0x80, 0xff, 0xff, 0x34, 0x12];
    let samples = samples_from_bytes(&bytes);
    assert_eq!(samples, vec![0, 1, i16::MAX, i16::MIN, -1, 0x1234]);
    assert_eq!(samples_to_bytes(&samples, samples.len()), bytes);
}

#[test]
fn samples_agree_with_the_standard_conversions() {
    for sample in i16::MIN..=i16::MAX {
        let bytes = sample.to_le_bytes();
        assert_eq!(samples_to_bytes(&[sample], 1), bytes);
        assert_eq!(samples_from_bytes(&bytes), vec![sample]);
    }
}

#[test]
fn odd_last_byte_is_left_out() {
    assert_eq!(samples_from_bytes(&[1, 0, 9]), vec![1]);
    assert_eq!(samples_from_bytes(&[9]), Vec::<i16>::new());
}

#[test]
fn only_the_first_samples_are_written() {
    assert_eq!(samples_to_bytes(&[1, 2, 3], 2), vec![1, 0, 2, 0]);
    assert_eq!(samples_to_bytes(&[1, 2, 3], 0), Vec::<u8>::new());
}

#[test]
fn frame_sizes() {
    assert_eq!(OPUS_FRAME_SAMPLES, 320);
    assert_eq!(FRAME_BYTES, 640);
}

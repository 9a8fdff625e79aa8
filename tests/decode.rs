use octopus_webp::{decode_buffer, try_decode_buffer, DecodeError};
use webp_animation::{Decoder, Encoder, EncoderOptions, EncodingConfig};

/// A lossless animation of 2x2 frames, every pixel opaque.
fn encode(frames: &[[u8; 16]]) -> Vec<u8> {
    let options = EncoderOptions {
        encoding_config: Some(EncodingConfig::default()),
        ..Default::default()
    };
    let mut encoder = Encoder::new_with_options((2, 2), options).unwrap();
    for (i, data) in frames.iter().enumerate() {
        encoder.add_frame(data, i as i32 * 100).unwrap();
    }
    encoder.finalize(frames.len() as i32 * 100).unwrap().to_vec()
}

fn two_frames() -> Vec<u8> {
    encode(&[
        [1, 2, 3, 255, 4, 5, 6, 255, 7, 8, 9, 255, 10, 11, 12, 255],
        [200, 100, 50, 255, 0, 0, 0, 255, 255, 255, 255, 255, 9, 99, 199, 255],
    ])
}

#[test]
fn decode_buffer_yields_each_frame_as_rgb_rows() {
    let a = decode_buffer(&two_frames()).unwrap();
    assert_eq!(a.frames.len(), 2);
    assert_eq!(a.size, (2, 2));
    assert_eq!(
        a.frames[0].0,
        vec![vec![1, 2, 3], vec![4, 5, 6], vec![7, 8, 9], vec![10, 11, 12]]
    );
    assert_eq!(
        a.frames[1].0,
        vec![vec![200, 100, 50], vec![0, 0, 0], vec![255, 255, 255], vec![9, 99, 199]]
    );
    assert!(a.frames[0].1 < a.frames[1].1);
}

#[test]
fn decode_buffer_follows_the_decoder_frame_by_frame() {
    let buffer = two_frames();
    let a = decode_buffer(&buffer).unwrap();
    let decoded: Vec<_> = Decoder::new(&buffer).unwrap().into_iter().collect();
    assert_eq!(a.frames.len(), decoded.len());
    for (frame, raw) in a.frames.iter().zip(decoded.iter()) {
        let expected: Vec<Vec<u8>> = raw.data().chunks_exact(4).map(|c| c[0..3].to_vec()).collect();
        assert_eq!(frame.0, expected);
        assert_eq!(frame.1, raw.timestamp());
        assert_eq!(a.size, raw.dimensions());
    }
}

#[test]
fn decode_buffer_twice_gives_the_same_frames() {
    let buffer = two_frames();
    let a = decode_buffer(&buffer).unwrap();
    let b = decode_buffer(&buffer).unwrap();
    assert_eq!(a.frames, b.frames);
    assert_eq!(a.size, b.size);
}

#[test]
fn decode_buffer_of_garbage_is_none() {
    let garbage: Vec<u8> = (0..64u8).map(|b| b.wrapping_mul(37)).collect();
    assert!(decode_buffer(&garbage).is_none());
    assert_eq!(try_decode_buffer(&garbage).err(), Some(DecodeError::InvalidContainer));
}

#[test]
fn decode_buffer_of_a_truncated_image_is_none() {
    let buffer = two_frames();
    assert!(decode_buffer(&buffer[..buffer.len() / 3]).is_none());
}

#[test]
fn decode_buffer_of_nothing_is_none() {
    assert!(decode_buffer(&[]).is_none());
    assert_eq!(try_decode_buffer(&[]).err(), Some(DecodeError::InvalidContainer));
}

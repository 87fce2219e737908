use exr_slots::exr::{
    chan2img32f, exr_height, exr_msg_sz, exr_reset, exr_set_err, exr_width, y2img32f, DecodeError,
    DecodedImage, _exr_msg_sz, _exr_reset, _exr_set_err, _exr_size,
};
use exr_slots::fold::{slice_fold, words32be};
use exr_slots::{reset, _reset};

fn be_float_bytes(vals: &[f32]) -> Vec<u8> {
    let mut bytes: Vec<u8> = Vec::new();
    for v in vals {
        bytes.extend_from_slice(&v.to_be_bytes());
    }
    bytes
}

fn sum_be_floats(bytes: &[u8]) -> f32 {
    slice_fold(
        bytes,
        4,
        0.0f32,
        |chunk: &[u8]| {
            let a: [u8; 4] = chunk.try_into().unwrap_or_default();
            f32::from_be_bytes(a)
        },
        |state: f32, next: f32| state + next,
    )
}

#[test]
fn reset_fills_with_zeros() {
    let mut slot: Option<Vec<u8>> = None;
    assert_eq!(reset(&mut slot, 5), 5);
    assert_eq!(slot.as_deref().unwrap(), &[0u8; 5]);
}

#[test]
fn reset_discards_previous_contents() {
    let mut slot: Option<Vec<u8>> = Some(vec![1, 2, 3]);
    assert_eq!(reset(&mut slot, 2), 2);
    assert_eq!(slot.as_deref().unwrap(), &[0u8, 0u8]);
}

#[test]
fn reset_negative_is_rejected() {
    let mut slot: Option<Vec<u8>> = Some(vec![9]);
    assert_eq!(reset(&mut slot, -4), -1);
    assert_eq!(slot.as_deref().unwrap(), &[9u8]);
}

#[test]
fn reset_twice_same_size_is_idempotent() {
    let mut slot: Option<Vec<u8>> = None;
    assert_eq!(reset(&mut slot, 7), 7);
    let first = slot.clone();
    assert_eq!(reset(&mut slot, 7), 7);
    assert_eq!(slot, first);
}

#[test]
fn reset_zero_gives_empty_buffer() {
    let mut slot: Option<Vec<u8>> = None;
    assert_eq!(_reset(&mut slot, 0), 0);
    assert_eq!(slot.as_deref().unwrap(), &[] as &[u8]);
}

#[test]
fn exr_reset_keeps_prefix_and_zero_fills() {
    let mut slot: Option<Vec<u8>> = Some(vec![7, 8]);
    assert_eq!(exr_reset(&mut slot, 4), 4);
    assert_eq!(slot.as_deref().unwrap(), &[7u8, 8, 0, 0]);
}

#[test]
fn exr_reset_truncates_to_requested_size() {
    let mut slot: Option<Vec<u8>> = Some(vec![7, 8, 9]);
    assert_eq!(_exr_reset(&mut slot, 2), 2);
    assert_eq!(slot.as_deref().unwrap(), &[7u8, 8]);
}

#[test]
fn exr_reset_twice_same_size_is_idempotent() {
    let mut slot: Option<Vec<u8>> = Some(vec![5, 6, 7]);
    assert_eq!(exr_reset(&mut slot, 5), 5);
    let first = slot.clone();
    assert_eq!(exr_reset(&mut slot, 5), 5);
    assert_eq!(slot, first);
}

#[test]
fn exr_reset_negative_is_rejected() {
    let mut slot: Option<Vec<u8>> = None;
    assert_eq!(exr_reset(&mut slot, -1), -1);
    assert!(slot.is_none());
}

#[test]
fn sum_of_big_endian_floats() {
    let vals = [1.5f32, -2.25, 10.0, 0.125];
    let bytes = be_float_bytes(&vals);
    let total = sum_be_floats(&bytes);
    let expected: f32 = vals.iter().sum();
    assert!((total - expected).abs() <= 1e-6);
}

#[test]
fn sum_of_nothing_is_zero() {
    assert_eq!(sum_be_floats(&[]), 0.0);
}

#[test]
fn trailing_partial_chunk_reads_as_zero() {
    let mut bytes = be_float_bytes(&[3.5f32]);
    bytes.extend_from_slice(&[0x40, 0x49]);
    let total = sum_be_floats(&bytes);
    assert_eq!(total, 3.5);
}

#[test]
fn words_decode_big_endian() {
    let w = words32be(&[1, 2, 3, 4, 9]);
    assert_eq!(w, vec![0x0102_0304, 0]);
}

#[test]
fn words_of_empty_buffer() {
    let w = words32be(&[]);
    assert_eq!(w, Vec::<u32>::new());
}

#[test]
fn words_carry_float_bits_exactly() {
    let vals = [0.0f32, -1.0, 3.25, 6.02e23];
    let bytes = be_float_bytes(&vals);
    let words = words32be(&bytes);
    assert_eq!(words.len(), vals.len());
    for (w, v) in words.iter().zip(vals.iter()) {
        assert_eq!(f32::from_bits(*w), *v);
    }
}

#[test]
fn aborted_failure_stores_fixed_message() {
    let mut err: Option<String> = None;
    exr_set_err(&mut err, DecodeError::Aborted);
    assert_eq!(err.as_deref().unwrap(), "Aborted");
    assert_eq!(exr_msg_sz(&err), 7);
}

#[test]
fn io_failure_stores_fixed_message() {
    let mut err: Option<String> = None;
    exr_set_err(&mut err, DecodeError::Io);
    assert_eq!(err.as_deref().unwrap(), "I/O Error");
    assert_eq!(exr_msg_sz(&err), 9);
}

#[test]
fn not_supported_failure_stores_decoder_message() {
    let mut err: Option<String> = Some(String::from("stale"));
    exr_set_err(&mut err, DecodeError::NotSupported(String::from("deep data")));
    assert_eq!(err.as_deref().unwrap(), "deep data");
}

#[test]
fn invalid_failure_stores_decoder_message() {
    let mut err: Option<String> = None;
    exr_set_err(&mut err, DecodeError::Invalid(String::from("not an exr file")));
    assert_eq!(err.as_deref().unwrap(), "not an exr file");
}

#[test]
fn message_length_of_empty_slot_is_zero() {
    assert_eq!(_exr_msg_sz(&None), 0);
    assert_eq!(exr_msg_sz(&None), 0);
}

#[test]
fn set_err_overwrites_previous_message() {
    let mut err: Option<String> = None;
    _exr_set_err(&mut err, "first");
    _exr_set_err(&mut err, "second message");
    assert_eq!(err.as_deref().unwrap(), "second message");
    assert_eq!(_exr_msg_sz(&err), 14);
}

fn sample_image(width: usize, height: usize, seed: f32) -> DecodedImage {
    let mut data: Vec<u32> = Vec::new();
    for i in 0..width * height {
        data.push((seed + i as f32).to_bits());
    }
    DecodedImage { data, pos_x: -3, pos_y: 11, width, height }
}

#[test]
fn size_of_empty_image_slot() {
    assert_eq!(_exr_size(&None), (0, 0));
    assert_eq!(exr_width(&None), -1);
    assert_eq!(exr_height(&None), -1);
}

#[test]
fn size_of_stored_image() {
    let slot = Some(sample_image(3, 2, 0.0));
    assert_eq!(_exr_size(&slot), (3, 2));
    assert_eq!(exr_width(&slot), 3);
    assert_eq!(exr_height(&slot), 2);
}

#[test]
fn stored_image_replaces_whole_contents() {
    let mut slot: Option<DecodedImage> = None;
    assert_eq!(chan2img32f(&mut slot, sample_image(2, 2, 1.0)), 4);
    assert_eq!(chan2img32f(&mut slot, sample_image(1, 3, 9.0)), 3);
    let img = slot.as_ref().unwrap();
    assert_eq!((img.width, img.height), (1, 3));
    assert_eq!((img.pos_x, img.pos_y), (-3, 11));
    assert_eq!(f32::from_bits(img.data[0]), 9.0);
}

#[test]
fn decode_success_reports_count_and_geometry() {
    let mut slot: Option<DecodedImage> = None;
    let mut err: Option<String> = None;
    _exr_set_err(&mut err, "previous");
    let r = y2img32f(&mut slot, &mut err, Ok(sample_image(3, 2, 0.5)));
    assert_eq!(r, 6);
    assert_eq!(exr_width(&slot), 3);
    assert_eq!(exr_height(&slot), 2);
    assert_eq!(err.as_deref().unwrap(), "previous");
    assert_eq!(exr_msg_sz(&err), 8);
}

#[test]
fn decode_failure_returns_sentinel_and_message() {
    let mut slot: Option<DecodedImage> = None;
    let mut err: Option<String> = None;
    let r = y2img32f(&mut slot, &mut err, Err(DecodeError::Invalid(String::from(
        "expected magic number",
    ))));
    assert_eq!(r, -1);
    assert!(slot.is_none());
    assert!(exr_msg_sz(&err) > 0);
}

#[test]
fn missing_channel_failure_preserves_prior_image() {
    let mut slot: Option<DecodedImage> = None;
    let mut err: Option<String> = None;
    assert_eq!(y2img32f(&mut slot, &mut err, Ok(sample_image(2, 1, 4.0))), 2);
    let r = y2img32f(&mut slot, &mut err, Err(DecodeError::Invalid(String::from(
        "channel Y is missing",
    ))));
    assert_eq!(r, -1);
    assert!(exr_msg_sz(&err) > 0);
    let img = slot.as_ref().unwrap();
    assert_eq!((img.width, img.height), (2, 1));
    assert_eq!(f32::from_bits(img.data[0]), 4.0);
    assert_eq!(f32::from_bits(img.data[1]), 5.0);
}

use realsense_capture::decode::buffer_size;
use realsense_capture::decode::decode_color;
use realsense_capture::decode::decode_depth;
use realsense_capture::decode::scale_depth_sample;
use realsense_capture::decode::DecodeError;
use realsense_capture::decode::CHANNELS;
use realsense_capture::decode::DEPTH_SCALE;

#[test]
fn depth_sample_sixteen_shows_as_two() {
    let image = decode_depth(&[16], 1, 1).unwrap();
    assert_eq!(image.pixel_data, vec![2, 2, 2]);
}

#[test]
fn depth_sample_2040_shows_as_255() {
    let image = decode_depth(&[2040], 1, 1).unwrap();
    assert_eq!(image.pixel_data, vec![255, 255, 255]);
}

#[test]
fn depth_scale_is_eight() {
    assert_eq!(DEPTH_SCALE, 8);
    assert_eq!(CHANNELS, 3);
}

#[test]
fn depth_samples_round_down() {
    assert_eq!(scale_depth_sample(0), 0);
    assert_eq!(scale_depth_sample(7), 0);
    assert_eq!(scale_depth_sample(8), 1);
    assert_eq!(scale_depth_sample(15), 1);
    assert_eq!(scale_depth_sample(1000), 125);
    assert_eq!(scale_depth_sample(2039), 254);
    assert_eq!(scale_depth_sample(2047), 255);
}

#[test]
fn depth_sample_2048_clamps_to_255() {
    assert_eq!(scale_depth_sample(2048), 255);
    let image = decode_depth(&[2048], 1, 1).unwrap();
    assert_eq!(image.pixel_data, vec![255, 255, 255]);
}

#[test]
fn depth_samples_above_the_range_clamp_to_255() {
    assert_eq!(scale_depth_sample(2049), 255);
    assert_eq!(scale_depth_sample(4096), 255);
    assert_eq!(scale_depth_sample(40000), 255);
    assert_eq!(scale_depth_sample(u16::MAX), 255);
}

#[test]
fn every_sample_below_2048_shows_as_its_eighth_in_three_bytes() {
    let samples: Vec<u16> = (0..2048).collect();
    let image = decode_depth(&samples, 2048, 1).unwrap();
    assert_eq!(image.pixel_data.len(), 3 * 2048);
    for s in 0..2048usize {
        let expected = (s / 8) as u8;
        assert_eq!(image.pixel_data[3 * s], expected);
        assert_eq!(image.pixel_data[3 * s + 1], expected);
        assert_eq!(image.pixel_data[3 * s + 2], expected);
    }
}

#[test]
fn scaling_agrees_with_the_saturating_float_quotient() {
    for s in 0..=u16::MAX {
        let by_float = (s as f32 / 8.0) as u8;
        assert_eq!(scale_depth_sample(s), by_float);
    }
}

#[test]
fn depth_frame_is_decoded_row_by_row() {
    let samples = [0u16, 8, 16, 24, 800, 2048];
    let image = decode_depth(&samples, 3, 2).unwrap();
    assert_eq!(image.width, 3);
    assert_eq!(image.height, 2);
    assert_eq!(
        image.pixel_data,
        vec![0, 0, 0, 1, 1, 1, 2, 2, 2, 3, 3, 3, 100, 100, 100, 255, 255, 255]
    );
}

#[test]
fn color_frame_passes_through_unchanged() {
    let data: Vec<u8> = (0..24).map(|i| (i * 10 + 1) as u8).collect();
    let image = decode_color(&data, 4, 2).unwrap();
    assert_eq!(image.width, 4);
    assert_eq!(image.height, 2);
    assert_eq!(image.pixel_data, data);
}

#[test]
fn color_channels_are_not_reordered() {
    let image = decode_color(&[1, 2, 3, 4, 5, 6], 2, 1).unwrap();
    assert_eq!(image.pixel_data, vec![1, 2, 3, 4, 5, 6]);
}

#[test]
fn decoded_color_is_a_copy() {
    let mut data = vec![9u8, 8, 7];
    let image = decode_color(&data, 1, 1).unwrap();
    data[0] = 0;
    assert_eq!(image.pixel_data, vec![9, 8, 7]);
}

#[test]
fn decoded_buffers_hold_three_bytes_per_pixel() {
    let sizes: [(u32, u32); 7] = [(0, 0), (0, 5), (5, 0), (1, 1), (2, 3), (16, 9), (640, 480)];
    for (w, h) in sizes {
        let pixels = (w * h) as usize;
        let depth = decode_depth(&vec![0u16; pixels], w, h).unwrap();
        assert_eq!(depth.pixel_data.len(), 3 * pixels);
        let color = decode_color(&vec![0u8; 3 * pixels], w, h).unwrap();
        assert_eq!(color.pixel_data.len(), 3 * pixels);
    }
}

#[test]
fn input_beyond_the_frame_is_not_read() {
    let depth = decode_depth(&[8, 16, 24, 32], 1, 2).unwrap();
    assert_eq!(depth.pixel_data, vec![1, 1, 1, 2, 2, 2]);
    let color = decode_color(&[1, 2, 3, 4, 5, 6, 7], 2, 1).unwrap();
    assert_eq!(color.pixel_data, vec![1, 2, 3, 4, 5, 6]);
}

#[test]
fn short_depth_input_is_refused() {
    let result = decode_depth(&[1, 2, 3], 2, 2);
    assert_eq!(result.unwrap_err(), DecodeError::ShortInput);
    let result = decode_depth(&[], 1, 1);
    assert_eq!(result.unwrap_err(), DecodeError::ShortInput);
}

#[test]
fn short_color_input_is_refused() {
    let result = decode_color(&[1, 2, 3, 4, 5], 2, 1);
    assert_eq!(result.unwrap_err(), DecodeError::ShortInput);
}

#[test]
fn frame_too_large_to_address_is_refused() {
    let result = decode_depth(&[1, 2, 3], u32::MAX, u32::MAX);
    assert_eq!(result.unwrap_err(), DecodeError::TooLarge);
    let result = decode_color(&[1, 2, 3], u32::MAX, u32::MAX);
    assert_eq!(result.unwrap_err(), DecodeError::TooLarge);
    assert_eq!(buffer_size(u32::MAX, u32::MAX), None);
}

#[test]
fn empty_frame_decodes_to_an_empty_buffer() {
    let depth = decode_depth(&[], 0, 7).unwrap();
    assert!(depth.pixel_data.is_empty());
    let color = decode_color(&[], 7, 0).unwrap();
    assert!(color.pixel_data.is_empty());
}

#[test]
fn buffer_size_is_three_times_the_pixels() {
    assert_eq!(buffer_size(0, 0), Some(0));
    assert_eq!(buffer_size(1, 1), Some(3));
    assert_eq!(buffer_size(640, 480), Some(921_600));
    assert_eq!(buffer_size(1280, 720), Some(2_764_800));
    assert_eq!(buffer_size(4096, 4096), Some(50_331_648));
}

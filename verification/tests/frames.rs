use batrachia::frame::{video_frame_len, AudioFrame, Frame, VideoFrame};

#[test]
fn video_frame_len_is_one_and_a_half_bytes_a_pixel() {
    assert_eq!(video_frame_len(1920, 1080), Some(3_110_400));
    assert_eq!(video_frame_len(2, 2), Some(6));
    assert_eq!(video_frame_len(3, 3), Some(13));
    assert_eq!(video_frame_len(0, 1080), Some(0));
    assert_eq!(video_frame_len(1, 1), Some(1));
}

#[test]
fn video_frame_len_of_the_largest_picture() {
    let wanted: u128 = (u32::MAX as u128) * (u32::MAX as u128) * 3 / 2;
    let expected = if wanted <= usize::MAX as u128 { Some(wanted as usize) } else { None };
    assert_eq!(video_frame_len(u32::MAX, u32::MAX), expected);
}

#[test]
fn a_video_frame_keeps_what_it_was_made_of() {
    let frame = VideoFrame::new(2, 2, &[1, 2, 3, 4, 5, 6]);
    assert_eq!(frame.width(), 2);
    assert_eq!(frame.height(), 2);
    assert_eq!(frame.data(), &[1u8, 2, 3, 4, 5, 6]);
}

#[test]
fn a_video_frame_matches_its_layout_by_its_size_alone() {
    assert!(VideoFrame::new(2, 2, &[0; 6]).check_layout());
    assert!(!VideoFrame::new(2, 2, &[0; 5]).check_layout());
    assert!(!VideoFrame::new(2, 2, &[0; 7]).check_layout());
    assert!(VideoFrame::new(0, 0, &[]).check_layout());
    assert!(!VideoFrame::new(u32::MAX, u32::MAX, &[0; 6]).check_layout());
}

#[test]
fn an_audio_frame_keeps_what_it_was_made_of() {
    let frame = AudioFrame::new(48_000, 2, 3, &[1, -1, 2, -2, 3, -3]);
    assert_eq!(frame.sample_rate(), 48_000);
    assert_eq!(frame.channels(), 2);
    assert_eq!(frame.samples_per_channel(), 3);
    assert_eq!(frame.data(), &[1i16, -1, 2, -2, 3, -3]);
}

#[test]
fn an_audio_frame_matches_its_layout_by_its_size_alone() {
    assert!(AudioFrame::new(48_000, 2, 3, &[0; 6]).check_layout());
    assert!(!AudioFrame::new(48_000, 2, 3, &[0; 5]).check_layout());
    assert!(AudioFrame::new(8_000, 0, 480, &[]).check_layout());
    assert!(!AudioFrame::new(8_000, 1, 480, &[]).check_layout());
}

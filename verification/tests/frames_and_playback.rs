use openmixture::playback::{
    DecodeStep, FeedStep, InputStep, MAX_FRAMES_PER_TICK, NO_TIMESTAMP, PlaybackState,
    ReceiveOutcome, SendOutcome, ToggleOutcome, non_nopts, saturating_add_i64,
    saturating_sub_i64, valid_duration_us,
};
use openmixture::video::{
    ByteOrder, FrameError, Rotation, pack_frame_rows, parse_word, read_display_matrix,
    rotate_rgba,
};

fn pixels(ids: &[u8]) -> Vec<u8> {
    ids.iter().flat_map(|&i| [i, i, i, 255]).collect()
}

#[test]
fn rotation_by_zero_keeps_the_frame() {
    let p = pixels(&[1, 2, 3, 4, 5, 6]);
    assert_eq!(rotate_rgba(3, 2, p.clone(), Rotation::Deg0), (3, 2, p));
}

#[test]
fn quarter_turn_turns_clockwise() {
    // a b
    // c d
    let (w, h, out) = rotate_rgba(2, 2, pixels(&[1, 2, 3, 4]), Rotation::Deg90);
    assert_eq!((w, h), (2, 2));
    assert_eq!(out, pixels(&[3, 1, 4, 2]));
}

#[test]
fn rotations_of_a_wide_frame() {
    let p = pixels(&[1, 2, 3, 4, 5, 6]); // 3 wide, 2 high
    let (w, h, r90) = rotate_rgba(3, 2, p.clone(), Rotation::Deg90);
    assert_eq!((w, h), (2, 3));
    assert_eq!(r90, pixels(&[4, 1, 5, 2, 6, 3]));
    let (w, h, r180) = rotate_rgba(3, 2, p.clone(), Rotation::Deg180);
    assert_eq!((w, h), (3, 2));
    assert_eq!(r180, pixels(&[6, 5, 4, 3, 2, 1]));
    let (w, h, r270) = rotate_rgba(3, 2, p, Rotation::Deg270);
    assert_eq!((w, h), (2, 3));
    assert_eq!(r270, pixels(&[3, 6, 2, 5, 1, 4]));
}

#[test]
fn opposite_quarter_turns_cancel() {
    let p = pixels(&[1, 2, 3, 4, 5, 6, 7, 8, 9, 10, 11, 12]); // 4 by 3
    let (w, h, once) = rotate_rgba(4, 3, p.clone(), Rotation::Deg90);
    let (w2, h2, back) = rotate_rgba(w, h, once, Rotation::Deg270);
    assert_eq!((w2, h2), (4, 3));
    assert_eq!(back, p);
}

#[test]
fn two_half_turns_cancel() {
    let p = pixels(&[9, 8, 7, 6, 5, 4]);
    let (w, h, once) = rotate_rgba(2, 3, p.clone(), Rotation::Deg180);
    let (_, _, back) = rotate_rgba(w, h, once, Rotation::Deg180);
    assert_eq!(back, p);
}

#[test]
fn frame_rows_are_packed_and_made_opaque() {
    let mut data = vec![0u8; 16];
    data[0..4].copy_from_slice(&[1, 2, 3, 4]);
    data[8..12].copy_from_slice(&[5, 6, 7, 8]);
    let packed = pack_frame_rows(&data, 8, 1, 2).unwrap();
    assert_eq!(packed, vec![1, 2, 3, 255, 5, 6, 7, 255]);
}

#[test]
fn frame_rows_past_the_data_are_refused() {
    let data = vec![0u8; 11];
    assert_eq!(pack_frame_rows(&data, 8, 1, 2), Err(FrameError::RowOutOfBounds));
    assert_eq!(pack_frame_rows(&data, 8, 1, 1).map(|v| v.len()), Ok(4));
    assert_eq!(pack_frame_rows(&[], 8, 3, 0), Ok(Vec::new()));
}

#[test]
fn words_are_read_in_both_orders() {
    assert_eq!(parse_word(0x00, 0x00, 0x01, 0x00, ByteOrder::Little), 65536);
    assert_eq!(parse_word(0x00, 0x01, 0x00, 0x00, ByteOrder::Big), 65536);
    assert_eq!(parse_word(0xff, 0xff, 0xff, 0xff, ByteOrder::Little), -1);
    assert_eq!(parse_word(0x00, 0x00, 0xff, 0xff, ByteOrder::Little), -65536);
    assert_eq!(parse_word(0x80, 0x00, 0x00, 0x00, ByteOrder::Big), i32::MIN);
}

#[test]
fn display_matrix_needs_nine_words() {
    let mut data = Vec::new();
    for k in 0..9i32 {
        data.extend_from_slice(&(k * 65536 - 3).to_le_bytes());
    }
    let m = read_display_matrix(&data, ByteOrder::Little).unwrap();
    for k in 0..9i32 {
        assert_eq!(m[k as usize], k * 65536 - 3);
    }
    let b = read_display_matrix(&data, ByteOrder::Big).unwrap();
    assert_eq!(b[0], i32::from_be_bytes([data[0], data[1], data[2], data[3]]));
    assert_eq!(read_display_matrix(&data[..35], ByteOrder::Little), None);
    data.push(7);
    assert!(read_display_matrix(&data, ByteOrder::Little).is_some());
}

#[test]
fn timestamps_and_durations() {
    assert_eq!(non_nopts(NO_TIMESTAMP), None);
    assert_eq!(non_nopts(12), Some(12));
    assert_eq!(valid_duration_us(0), None);
    assert_eq!(valid_duration_us(-5), None);
    assert_eq!(valid_duration_us(5), Some(5));
    assert_eq!(saturating_add_i64(i64::MAX, 1), i64::MAX);
    assert_eq!(saturating_add_i64(-3, 1), -2);
    assert_eq!(saturating_sub_i64(i64::MIN, 1), i64::MIN);
    assert_eq!(saturating_sub_i64(5, 7), -2);
}

#[test]
fn playback_starts_playing_at_zero() {
    let p = PlaybackState::new(100, Some(10_000_000), 40_000_000, 7);
    assert!(p.is_playing());
    assert!(!p.is_finished());
    assert_eq!(p.position_us(), 0);
    assert_eq!(p.duration_us(), Some(10_000_000));
}

#[test]
fn toggling_twice_restores_playback() {
    let mut p = PlaybackState::new(0, Some(1_000), 10, 0);
    assert_eq!(p.toggle_playback(5), ToggleOutcome::Paused);
    assert!(!p.is_playing());
    assert_eq!(p.toggle_playback(9), ToggleOutcome::Resumed);
    assert!(p.is_playing());
}

#[test]
fn resuming_after_the_end_needs_a_restart() {
    let mut p = PlaybackState::new(0, Some(1_000), 10, 0);
    p.finish_on_last_frame(50);
    assert!(p.is_finished());
    assert!(!p.is_playing());
    assert_eq!(p.position_us(), 1_000);
    assert_eq!(p.toggle_playback(60), ToggleOutcome::RestartThenResume);
    assert!(!p.is_playing());
    let (pos, target) = p.seek_target(0);
    p.complete_seek(pos, 61);
    assert_eq!(target, 0);
    assert!(!p.is_finished());
    p.resume(62);
    assert!(p.is_playing());
    assert_eq!(p.position_us(), 0);
}

#[test]
fn seeks_land_within_the_clip() {
    let p = PlaybackState::new(500, Some(2_000), 10, 0);
    assert_eq!(p.seek_target(-10), (0, 500));
    assert_eq!(p.seek_target(1_500), (1_500, 2_000));
    assert_eq!(p.seek_target(9_999), (2_000, 2_500));
    let open = PlaybackState::new(i64::MAX - 1, None, 10, 0);
    assert_eq!(open.seek_target(9_999), (9_999, i64::MAX));
}

#[test]
fn ticks_pay_out_frames() {
    let mut p = PlaybackState::new(0, None, 10, 0);
    assert!(p.begin_tick(35));
    let mut frames = 0usize;
    while p.frame_due(frames) {
        p.frame_advanced();
        frames += 1;
    }
    assert_eq!(frames, 3);
    assert!(p.begin_tick(1_000));
    let mut frames = 0usize;
    while p.frame_due(frames) {
        p.frame_advanced();
        frames += 1;
    }
    assert_eq!(frames, MAX_FRAMES_PER_TICK);
}

#[test]
fn paused_ticks_only_note_the_time() {
    let mut p = PlaybackState::new(0, None, 10, 0);
    p.toggle_playback(0);
    assert!(!p.begin_tick(1_000));
    assert!(!p.frame_due(0));
    p.toggle_playback(1_000);
    assert!(p.begin_tick(1_005));
    assert!(!p.frame_due(0));
}

#[test]
fn stream_positions_are_kept_within_the_clip() {
    let mut p = PlaybackState::new(1_000, Some(5_000), 10, 0);
    p.set_position_from_stream(3_500);
    assert_eq!(p.position_us(), 2_500);
    p.set_position_from_stream(10);
    assert_eq!(p.position_us(), 0);
    p.set_position_from_stream(99_999);
    assert_eq!(p.position_us(), 5_000);
}

#[test]
fn decoder_answers_choose_the_next_step() {
    let mut p = PlaybackState::new(0, None, 10, 0);
    assert_eq!(p.after_receive(ReceiveOutcome::Frame), DecodeStep::Publish);
    assert_eq!(p.after_receive(ReceiveOutcome::Again), DecodeStep::Feed);
    assert_eq!(p.after_receive(ReceiveOutcome::EndOfStream), DecodeStep::Finish);
    assert_eq!(p.after_receive(ReceiveOutcome::Failed), DecodeStep::Fail);
    assert_eq!(p.next_input(true), InputStep::SendPacket);
    assert_eq!(p.next_input(false), InputStep::SendEof);
    assert_eq!(p.after_send_eof(SendOutcome::Again), FeedStep::Continue);
    assert_eq!(p.next_input(false), InputStep::Finish);
    assert_eq!(p.after_send_packet(SendOutcome::Again), FeedStep::HoldPacket);
    assert_eq!(p.next_input(false), InputStep::Finish);
    assert_eq!(p.after_send_packet(SendOutcome::Accepted), FeedStep::Continue);
    assert_eq!(p.next_input(false), InputStep::SendEof);
    assert_eq!(p.after_send_packet(SendOutcome::Failed), FeedStep::Fail);
    assert_eq!(p.after_send_eof(SendOutcome::Failed), FeedStep::Fail);
    assert_eq!(p.next_input(false), InputStep::SendEof);
}

#[test]
fn every_rotation_keeps_the_same_pixels() {
    let p = pixels(&[1, 2, 3, 4, 5, 6, 7, 8, 9, 10, 11, 12]);
    for r in [Rotation::Deg0, Rotation::Deg90, Rotation::Deg180, Rotation::Deg270] {
        let (_, _, out) = rotate_rgba(4, 3, p.clone(), r);
        let mut a: Vec<&[u8]> = out.chunks(4).collect();
        let mut b: Vec<&[u8]> = p.chunks(4).collect();
        a.sort();
        b.sort();
        assert_eq!(a, b);
    }
}

#[test]
fn one_tick_decodes_whole_intervals_only() {
    let mut p = PlaybackState::new(0, None, 10, 0);
    assert!(p.begin_tick(29));
    let mut frames = 0usize;
    while p.frame_due(frames) {
        p.frame_advanced();
        frames += 1;
    }
    assert_eq!(frames, 2);
}

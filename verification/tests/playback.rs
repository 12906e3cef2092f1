use badapple_demo::video::{frame_offset, Playback, FRAMES_TO_SHOW, FRAME_BYTES, FRAME_HEIGHT, FRAME_WIDTH};

#[test]
fn frame_constants_fit_the_screen() {
    assert_eq!(FRAME_WIDTH, 160);
    assert_eq!(FRAME_HEIGHT, 80);
    assert_eq!(FRAME_BYTES, 2 * 160 * 80);
}

#[test]
fn shown_frames_stand_two_stored_frames_apart() {
    assert_eq!(frame_offset(0), 0);
    assert_eq!(frame_offset(1), 51200);
    assert_eq!(frame_offset(2), 102400);
    assert_eq!(frame_offset(2188), 112025600);
}

#[test]
fn fresh_playback_starts_at_the_file_start() {
    let p = Playback::begin();
    assert_eq!(p.shown, 0);
    assert_eq!(p.cursor, 0);
    assert!(!p.done());
}

#[test]
fn advance_moves_one_read_and_one_skip() {
    let mut p = Playback::begin();
    p.advance();
    assert_eq!(p.shown, 1);
    assert_eq!(p.cursor, (FRAME_BYTES as u64) * 2);
    assert_eq!(p.skip_after_read(), FRAME_BYTES as u32);
}

#[test]
fn full_run_shows_every_frame_once() {
    let mut p = Playback::begin();
    let mut reads: u32 = 0;
    while !p.done() {
        assert_eq!(p.cursor, frame_offset(p.shown));
        p.advance();
        reads += 1;
    }
    assert_eq!(reads, FRAMES_TO_SHOW);
    assert_eq!(p.shown, 2189);
    assert_eq!(p.cursor, 112076800);
}

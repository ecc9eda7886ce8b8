use mood_monitor::frames::Frame;
use mood_monitor::frames::LedColor;
use mood_monitor::FrameLibrary;
use mood_monitor::Mood;
use mood_monitor::poll_cycle;
use mood_monitor::SharedMoodState;

#[test]
fn state_starts_unknown() {
    let s = SharedMoodState::new();
    assert_eq!(s.get_state(), Mood::Unknown);
}

#[test]
fn read_after_write_returns_written_mood() {
    let mut s = SharedMoodState::new();
    s.set_state(Mood::Sad);
    assert_eq!(s.get_state(), Mood::Sad);
    s.set_state(Mood::Happy);
    assert_eq!(s.get_state(), Mood::Happy);
    s.set_state(Mood::Happy);
    assert_eq!(s.get_state(), Mood::Happy);
}

#[test]
fn failed_poll_updates_state_to_unknown() {
    let mut s = SharedMoodState::new();
    s.set_state(Mood::Sad);
    poll_cycle(&mut s, None);
    assert_eq!(s.get_state(), Mood::Unknown);

    s.set_state(Mood::Happy);
    let garbled = "not a status report".to_string();
    poll_cycle(&mut s, Some(&garbled));
    assert_eq!(s.get_state(), Mood::Unknown);
}

#[test]
fn poll_cycle_publishes_derived_mood() {
    let mut s = SharedMoodState::new();
    let body = r#"[{"name":"a","color":"blue"}]"#.to_string();
    poll_cycle(&mut s, Some(&body));
    assert_eq!(s.get_state(), Mood::Happy);
}

#[test]
fn cycle_lengths_match_the_art() {
    let lib = FrameLibrary::new();
    assert_eq!(lib.cycle(Mood::Happy).len(), 3);
    assert_eq!(lib.cycle(Mood::Neutral).len(), 2);
    assert_eq!(lib.cycle(Mood::Sad).len(), 4);
    assert_eq!(lib.cycle(Mood::Unknown).len(), 2);
}

#[test]
fn unknown_shares_the_neutral_cycle() {
    let lib = FrameLibrary::new();
    for t in 0..12 {
        assert_eq!(lib.frame_for_tick(Mood::Unknown, t), lib.frame_for_tick(Mood::Neutral, t));
    }
}

#[test]
fn tick_selects_frame_modulo_cycle_length() {
    let lib = FrameLibrary::new();
    for t in 0..12usize {
        assert_eq!(lib.frame_for_tick(Mood::Happy, t), &lib.cycle(Mood::Happy)[t % 3]);
        assert_eq!(lib.frame_for_tick(Mood::Neutral, t), &lib.cycle(Mood::Neutral)[t % 2]);
        assert_eq!(lib.frame_for_tick(Mood::Sad, t), &lib.cycle(Mood::Sad)[t % 4]);
    }
}

#[test]
fn red_report_renders_second_sad_frame_at_tick_five() {
    let mut s = SharedMoodState::new();
    let body = r#"[{"name":"a","color":"red"},{"name":"b","color":"blue"}]"#.to_string();
    poll_cycle(&mut s, Some(&body));
    assert_eq!(s.get_state(), Mood::Sad);
    let lib = FrameLibrary::new();
    let shown = lib.frame_for_tick(s.get_state(), 5);
    assert_eq!(shown, &lib.cycle(Mood::Sad)[5 % 4]);
    assert_eq!(shown, &lib.cycle(Mood::Sad)[1]);
}

#[test]
fn empty_report_renders_second_happy_frame_at_tick_seven() {
    let mut s = SharedMoodState::new();
    let body = "[]".to_string();
    poll_cycle(&mut s, Some(&body));
    assert_eq!(s.get_state(), Mood::Happy);
    let lib = FrameLibrary::new();
    let shown = lib.frame_for_tick(s.get_state(), 7);
    assert_eq!(shown, &lib.cycle(Mood::Happy)[7 % 3]);
    assert_eq!(shown, &lib.cycle(Mood::Happy)[1]);
}

#[test]
fn a_skipped_tick_does_not_change_later_renders() {
    // A device failure makes the animator drop one tick's write; the
    // next tick must render exactly what it would have rendered anyway.
    let lib = FrameLibrary::new();
    let expected_later = lib.render_tick(Mood::Neutral, 4);
    let _dropped = lib.render_tick(Mood::Neutral, 3);
    let later = lib.render_tick(Mood::Neutral, 4);
    assert_eq!(later, expected_later);
    assert_eq!(later, lib.frame_for_tick(Mood::Neutral, 4).frame_line());
}

#[test]
fn rotation_moves_each_cell_to_the_opposite_corner() {
    let mut cells = vec![LedColor::Black; 64];
    cells[0] = LedColor::Red;
    cells[1 * 8 + 2] = LedColor::Blue;
    let f = Frame::from_cells(cells);
    let r = f.rotate180();
    assert_eq!(r.cell(7, 7), LedColor::Red);
    assert_eq!(r.cell(6, 5), LedColor::Blue);
    assert_eq!(r.cell(0, 0), LedColor::Black);
    // Rotating twice restores the original frame.
    assert_eq!(r.rotate180(), f);
}

#[test]
fn library_frames_are_rotated_from_the_authored_art() {
    let lib = FrameLibrary::new();
    // First happy frame as authored: eyes at (1,1) and (1,6) in blue,
    // mouth corners at (4,0) and (4,7) in red. Rotated 180 degrees they
    // land at (6,6), (6,1), (3,7) and (3,0).
    let f = &lib.cycle(Mood::Happy)[0];
    assert_eq!(f.cell(6, 6), LedColor::Blue);
    assert_eq!(f.cell(6, 1), LedColor::Blue);
    assert_eq!(f.cell(3, 7), LedColor::Red);
    assert_eq!(f.cell(3, 0), LedColor::Red);
    assert_eq!(f.cell(0, 0), LedColor::Black);
    // Second neutral frame as authored: eyes at (1,2) and (1,6); the
    // flat mouth spans (5,1)..(5,6). Rotated: eyes at (6,5) and (6,1),
    // mouth at (2,1)..(2,6).
    let f = &lib.cycle(Mood::Neutral)[1];
    assert_eq!(f.cell(6, 5), LedColor::Blue);
    assert_eq!(f.cell(6, 1), LedColor::Blue);
    assert_eq!(f.cell(2, 1), LedColor::Red);
    assert_eq!(f.cell(2, 6), LedColor::Red);
    assert_eq!(f.cell(5, 2), LedColor::Black);
}

#[test]
fn frame_line_encodes_one_rgb_triple_per_cell() {
    let mut cells = vec![LedColor::Black; 64];
    cells[0] = LedColor::Red;
    cells[5] = LedColor::Blue;
    let f = Frame::from_cells(cells);
    let line = f.frame_line();
    assert_eq!(line.len(), 192);
    assert_eq!(&line[0..3], &[255, 0, 0]);
    assert_eq!(&line[15..18], &[0, 0, 255]);
    assert_eq!(&line[3..6], &[0, 0, 0]);
}

//! Frame assembler tests.

use board_rs::color::Color;
use board_rs::frame::{FrameAssembler, FrameState};
use board_rs::BoardError;

fn colors(n: usize) -> Vec<Color> {
    (0..n).map(|i| Color::rgb((i % 256) as u8, 0, 0)).collect()
}

#[test]
fn writes_before_frame_start_are_ignored() {
    let mut a = FrameAssembler::new(1000, 1000);
    assert_eq!(a.frame_state(), FrameState::WaitingForFrame);
    assert!(a.accept(50, &colors(10)).is_ok());
    assert_eq!(a.frame_state(), FrameState::WaitingForFrame);
    assert_eq!(a.received_count(), 0);
    // an offset-0 write then starts the frame and the buffer is exactly
    // the written colors
    assert!(a.accept(0, &colors(10)).is_ok());
    assert_eq!(a.frame_state(), FrameState::CollectingFrame);
    assert_eq!(a.received_count(), 10);
    assert!(a.take_complete_frame().is_none());
}

#[test]
fn offset_zero_resets_mid_frame() {
    let mut a = FrameAssembler::new(1000, 1000);
    assert!(a.accept(0, &colors(30)).is_ok());
    assert!(a.accept(30, &colors(20)).is_ok());
    assert_eq!(a.received_count(), 50);
    // a new frame start discards everything collected so far
    assert!(a.accept(0, &colors(5)).is_ok());
    assert_eq!(a.received_count(), 5);
    assert_eq!(a.frame_state(), FrameState::CollectingFrame);
}

#[test]
fn sixty_colors_complete_a_long_frame() {
    // completion threshold is min(60, expected_frame_size)
    let mut a = FrameAssembler::new(1000, 1000);
    assert!(a.accept(0, &colors(60)).is_ok());
    assert_eq!(a.frame_state(), FrameState::FrameComplete);
    let frame = a.take_complete_frame().unwrap();
    assert_eq!(frame.len(), 60);
    assert_eq!(a.frame_state(), FrameState::WaitingForFrame);
}

#[test]
fn thirty_colors_do_not_complete() {
    let mut a = FrameAssembler::new(1000, 1000);
    assert!(a.accept(0, &colors(30)).is_ok());
    assert_eq!(a.frame_state(), FrameState::CollectingFrame);
    assert!(a.take_complete_frame().is_none());
}

#[test]
fn short_strip_completes_at_its_size() {
    let mut a = FrameAssembler::new(8, 1000);
    assert!(a.accept(0, &colors(7)).is_ok());
    assert_eq!(a.frame_state(), FrameState::CollectingFrame);
    assert!(a.accept(7, &colors(1)).is_ok());
    assert_eq!(a.frame_state(), FrameState::FrameComplete);
    assert_eq!(a.take_complete_frame().unwrap().len(), 8);
}

#[test]
fn sparse_writes_pad_with_off_colors() {
    let mut a = FrameAssembler::with_fast_threshold(1000, 6, 1000);
    let red = vec![Color::rgb(255, 0, 0)];
    let blue = vec![Color::rgb(0, 0, 255)];
    assert!(a.accept(0, &red).is_ok());
    assert!(a.accept(5, &blue).is_ok());
    assert_eq!(a.frame_state(), FrameState::FrameComplete);
    let frame = a.take_complete_frame().unwrap();
    assert_eq!(frame.len(), 6);
    assert_eq!(frame[0], Color::rgb(255, 0, 0));
    for i in 1..5 {
        assert_eq!(frame[i], Color::off());
    }
    assert_eq!(frame[5], Color::rgb(0, 0, 255));
}

#[test]
fn overlapping_writes_last_writer_wins() {
    let mut a = FrameAssembler::with_fast_threshold(1000, 2, 1000);
    let two = vec![Color::rgb(1, 1, 1), Color::rgb(2, 2, 2)];
    let one = vec![Color::rgb(9, 9, 9)];
    assert!(a.accept(0, &two).is_ok());
    assert!(a.accept(1, &one).is_ok());
    let frame = a.take_complete_frame().unwrap();
    assert_eq!(frame, vec![Color::rgb(1, 1, 1), Color::rgb(9, 9, 9)]);
}

#[test]
fn capacity_error_leaves_reset_buffer() {
    let mut a = FrameAssembler::new(1000, 100);
    assert_eq!(a.accept(0, &colors(200)), Err(BoardError::LedError));
    // the offset-0 reset took place; the oversized write itself did not
    assert_eq!(a.received_count(), 0);
    assert_eq!(a.frame_state(), FrameState::CollectingFrame);
    // an in-capacity write afterwards is accepted as usual
    assert!(a.accept(0, &colors(50)).is_ok());
    assert_eq!(a.received_count(), 50);
}

#[test]
fn capacity_error_on_high_offset() {
    let mut a = FrameAssembler::new(1000, 100);
    assert!(a.accept(0, &colors(10)).is_ok());
    assert_eq!(a.accept(95, &colors(10)), Err(BoardError::LedError));
    assert_eq!(a.received_count(), 10);
}

#[test]
fn empty_write_at_zero_ends_a_frame() {
    let mut a = FrameAssembler::new(1000, 1000);
    assert!(a.accept(0, &colors(30)).is_ok());
    assert_eq!(a.frame_state(), FrameState::CollectingFrame);
    a.accept_empty(0);
    assert_eq!(a.frame_state(), FrameState::FrameComplete);
    assert_eq!(a.take_complete_frame().unwrap().len(), 30);
}

#[test]
fn empty_write_is_otherwise_ignored() {
    let mut a = FrameAssembler::new(1000, 1000);
    // no frame in progress
    a.accept_empty(0);
    assert_eq!(a.frame_state(), FrameState::WaitingForFrame);
    // non-zero offset
    assert!(a.accept(0, &colors(5)).is_ok());
    a.accept_empty(3);
    assert_eq!(a.frame_state(), FrameState::CollectingFrame);
    // empty buffer
    let mut b = FrameAssembler::new(1000, 1000);
    assert!(b.accept(0, &colors(0)).is_ok());
    b.accept_empty(0);
    assert_eq!(b.frame_state(), FrameState::CollectingFrame);
}

#[test]
fn committing_the_same_frame_twice_is_identical() {
    let mut a = FrameAssembler::new(1000, 1000);
    let writes: [(u16, Vec<Color>); 2] = [(0, colors(40)), (40, colors(20))];
    for (off, cs) in &writes {
        assert!(a.accept(*off, cs).is_ok());
    }
    let first = a.take_complete_frame().unwrap();
    // replaying the same writes yields the identical buffer: the
    // hand-off left no hidden state behind
    for (off, cs) in &writes {
        assert!(a.accept(*off, cs).is_ok());
    }
    let second = a.take_complete_frame().unwrap();
    assert_eq!(first, second);
}

use rless::input::{Command, CustomInputHandler, Event, KeyCode, Modifiers, SearchMode};
use rless::prefix::RepeatPrefix;

fn plain(c: char) -> Event {
    Event::Key(KeyCode::Char(c), Modifiers::Plain)
}

fn key(code: KeyCode) -> Event {
    Event::Key(code, Modifiers::Plain)
}

fn classify(h: &mut CustomInputHandler, ev: Event, mark: usize) -> Option<Command> {
    h.classify_input(ev, mark, SearchMode::Unknown, false, false, 24)
}

#[test]
fn digits_then_down_scroll_by_their_value() {
    let mut h = CustomInputHandler::new();
    assert_eq!(classify(&mut h, plain('1'), 10), None);
    assert_eq!(classify(&mut h, plain('2'), 10), None);
    assert_eq!(classify(&mut h, key(KeyCode::Down), 10), Some(Command::UpdateUpperMark(22)));
    // the prefix was consumed: the next Down moves by one
    assert_eq!(classify(&mut h, plain('j'), 22), Some(Command::UpdateUpperMark(23)));
}

#[test]
fn digits_then_up_and_enter() {
    let mut h = CustomInputHandler::new();
    classify(&mut h, plain('3'), 0);
    assert_eq!(classify(&mut h, plain('k'), 10), Some(Command::UpdateUpperMark(7)));
    classify(&mut h, plain('4'), 0);
    classify(&mut h, plain('0'), 0);
    assert_eq!(classify(&mut h, key(KeyCode::Enter), 7), Some(Command::UpdateUpperMark(47)));
}

#[test]
fn zero_prefix_gives_zero_count() {
    let mut h = CustomInputHandler::new();
    classify(&mut h, plain('0'), 0);
    assert_eq!(classify(&mut h, key(KeyCode::Down), 5), Some(Command::UpdateUpperMark(5)));
}

#[test]
fn resolve_folds_and_clears() {
    let mut p = RepeatPrefix::new();
    assert_eq!(p.resolve(), 1);
    p.push_digit(1);
    p.push_digit(2);
    p.push_digit(3);
    assert_eq!(p.resolve(), 123);
    assert!(p.is_empty());
    assert_eq!(p.resolve(), 1);
}

#[test]
fn resolve_saturates_on_long_prefix() {
    let mut p = RepeatPrefix::new();
    for _ in 0..40 {
        p.push_digit(9);
    }
    assert_eq!(p.resolve(), usize::MAX);
}

#[test]
fn saturating_scrolls() {
    let mut h = CustomInputHandler::new();
    assert_eq!(classify(&mut h, key(KeyCode::Up), 0), Some(Command::UpdateUpperMark(0)));
    assert_eq!(
        classify(&mut h, key(KeyCode::Down), usize::MAX),
        Some(Command::UpdateUpperMark(usize::MAX))
    );
    assert_eq!(classify(&mut h, Event::WheelUp, 3), Some(Command::UpdateUpperMark(0)));
    assert_eq!(
        classify(&mut h, Event::WheelDown, usize::MAX - 2),
        Some(Command::UpdateUpperMark(usize::MAX))
    );
    assert_eq!(classify(&mut h, key(KeyCode::PageUp), 10), Some(Command::UpdateUpperMark(0)));
}

#[test]
fn long_prefix_saturates_mark() {
    let mut h = CustomInputHandler::new();
    for _ in 0..30 {
        classify(&mut h, plain('9'), 0);
    }
    assert_eq!(classify(&mut h, key(KeyCode::Down), 1), Some(Command::UpdateUpperMark(usize::MAX)));
}

#[test]
fn undo_restores_then_redo() {
    let mut h = CustomInputHandler::new();
    assert_eq!(classify(&mut h, key(KeyCode::Down), 10), Some(Command::UpdateUpperMark(11)));
    assert_eq!(classify(&mut h, key(KeyCode::Down), 11), Some(Command::UpdateUpperMark(12)));
    assert_eq!(classify(&mut h, plain('k'), 12), Some(Command::UpdateUpperMark(11)));
    assert_eq!(classify(&mut h, plain('u'), 11), Some(Command::UpdateUpperMark(12)));
    assert_eq!(classify(&mut h, plain('u'), 12), Some(Command::UpdateUpperMark(11)));
    assert_eq!(classify(&mut h, plain('u'), 11), Some(Command::UpdateUpperMark(10)));
    assert_eq!(classify(&mut h, plain('u'), 10), None);
    // redo retraces the movements forward
    assert_eq!(classify(&mut h, plain('r'), 10), Some(Command::UpdateUpperMark(11)));
    assert_eq!(classify(&mut h, plain('r'), 11), Some(Command::UpdateUpperMark(12)));
    assert_eq!(classify(&mut h, plain('r'), 12), Some(Command::UpdateUpperMark(11)));
    assert_eq!(classify(&mut h, plain('r'), 11), None);
}

#[test]
fn redo_after_undos_returns_to_first_move() {
    let mut h = CustomInputHandler::new();
    assert_eq!(classify(&mut h, key(KeyCode::Down), 5), Some(Command::UpdateUpperMark(6)));
    assert_eq!(classify(&mut h, plain('j'), 6), Some(Command::UpdateUpperMark(7)));
    assert_eq!(classify(&mut h, plain('u'), 7), Some(Command::UpdateUpperMark(6)));
    assert_eq!(classify(&mut h, plain('u'), 6), Some(Command::UpdateUpperMark(5)));
    assert_eq!(classify(&mut h, plain('r'), 5), Some(Command::UpdateUpperMark(6)));
    // one entry back on the undo stack: undo returns to 5, then nothing more
    assert_eq!(classify(&mut h, plain('u'), 6), Some(Command::UpdateUpperMark(5)));
    assert_eq!(classify(&mut h, plain('u'), 5), None);
}

#[test]
fn empty_history_is_a_no_op() {
    let mut h = CustomInputHandler::new();
    assert_eq!(classify(&mut h, plain('u'), 7), None);
    assert_eq!(classify(&mut h, plain('r'), 7), None);
    // nothing was recorded by them: undo is still empty after a redo attempt
    assert_eq!(classify(&mut h, plain('u'), 7), None);
}

#[test]
fn other_movements_do_not_record_history() {
    let mut h = CustomInputHandler::new();
    assert_eq!(classify(&mut h, plain('g'), 40), Some(Command::UpdateUpperMark(0)));
    assert_eq!(classify(&mut h, plain('G'), 0), Some(Command::UpdateUpperMark(usize::MAX)));
    assert_eq!(
        classify(&mut h, Event::Key(KeyCode::Char('g'), Modifiers::Shift), 0),
        Some(Command::UpdateUpperMark(usize::MAX))
    );
    assert_eq!(classify(&mut h, plain('d'), 10), Some(Command::UpdateUpperMark(22)));
    assert_eq!(
        classify(&mut h, Event::Key(KeyCode::Char('u'), Modifiers::Control), 30),
        Some(Command::UpdateUpperMark(18))
    );
    assert_eq!(classify(&mut h, key(KeyCode::PageDown), 0), Some(Command::UpdateUpperMark(23)));
    assert_eq!(classify(&mut h, plain(' '), 23), Some(Command::UpdateUpperMark(46)));
    assert_eq!(classify(&mut h, key(KeyCode::PageUp), 46), Some(Command::UpdateUpperMark(23)));
    assert_eq!(classify(&mut h, plain('u'), 23), None);
}

#[test]
fn half_page_uses_integer_division() {
    let mut h = CustomInputHandler::new();
    let r = h.classify_input(
        Event::Key(KeyCode::Char('d'), Modifiers::Control),
        0,
        SearchMode::Unknown,
        false,
        false,
        7,
    );
    assert_eq!(r, Some(Command::UpdateUpperMark(3)));
}

#[test]
fn digits_do_not_scale_other_commands() {
    let mut h = CustomInputHandler::new();
    classify(&mut h, plain('5'), 0);
    assert_eq!(classify(&mut h, key(KeyCode::PageDown), 0), Some(Command::UpdateUpperMark(23)));
    // still pending for the next counted movement
    assert_eq!(classify(&mut h, key(KeyCode::Down), 0), Some(Command::UpdateUpperMark(5)));
}

#[test]
fn enter_with_message_restores_prompt() {
    let mut h = CustomInputHandler::new();
    let r = h.classify_input(key(KeyCode::Enter), 4, SearchMode::Unknown, false, true, 24);
    assert_eq!(r, Some(Command::RestorePrompt));
    assert_eq!(classify(&mut h, plain('u'), 4), None);
}

#[test]
fn match_keys_mirror_in_reverse() {
    let mut h = CustomInputHandler::new();
    let n_rev = h.classify_input(plain('n'), 0, SearchMode::Reverse, false, false, 24);
    let p_fwd = h.classify_input(plain('p'), 0, SearchMode::Forward, false, false, 24);
    let p_rev = h.classify_input(plain('p'), 0, SearchMode::Reverse, false, false, 24);
    let n_fwd = h.classify_input(plain('n'), 0, SearchMode::Forward, false, false, 24);
    assert_eq!(n_rev, Some(Command::PrevMatch));
    assert_eq!(n_rev, p_fwd);
    assert_eq!(p_rev, Some(Command::NextMatch));
    assert_eq!(p_rev, n_fwd);
    let n_none = h.classify_input(plain('n'), 0, SearchMode::Unknown, false, false, 24);
    assert_eq!(n_none, Some(Command::NextMatch));
}

#[test]
fn resize_reports_size_only() {
    let mut h = CustomInputHandler::new();
    classify(&mut h, plain('2'), 0);
    classify(&mut h, key(KeyCode::Down), 0);
    assert_eq!(
        classify(&mut h, Event::Resize(120, 40), 2),
        Some(Command::UpdateTermArea(120, 40))
    );
    // history and prefix untouched by the resize
    assert_eq!(classify(&mut h, plain('u'), 2), Some(Command::UpdateUpperMark(0)));
    assert_eq!(classify(&mut h, plain('u'), 0), None);
}

#[test]
fn search_line_numbers_and_exit() {
    let mut h = CustomInputHandler::new();
    assert_eq!(classify(&mut h, plain('/'), 0), Some(Command::Search(SearchMode::Forward)));
    assert_eq!(classify(&mut h, plain('?'), 0), Some(Command::Search(SearchMode::Reverse)));
    let r = h.classify_input(plain('l'), 0, SearchMode::Unknown, true, false, 24);
    assert_eq!(r, Some(Command::UpdateLineNumber(false)));
    assert_eq!(classify(&mut h, plain('l'), 0), Some(Command::UpdateLineNumber(true)));
    assert_eq!(classify(&mut h, plain('q'), 0), Some(Command::Exit));
    assert_eq!(
        classify(&mut h, Event::Key(KeyCode::Char('c'), Modifiers::Control), 0),
        Some(Command::Exit)
    );
}

#[test]
fn unrecognised_events_are_ignored() {
    let mut h = CustomInputHandler::new();
    assert_eq!(classify(&mut h, plain('x'), 3), None);
    assert_eq!(classify(&mut h, Event::Other, 3), None);
    assert_eq!(classify(&mut h, key(KeyCode::Other), 3), None);
    assert_eq!(classify(&mut h, Event::Key(KeyCode::Char('1'), Modifiers::Control), 3), None);
    assert_eq!(classify(&mut h, Event::Key(KeyCode::Down, Modifiers::Shift), 3), None);
}

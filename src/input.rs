use vstd::prelude::*;
use crate::history::History;
use crate::prefix::{clamp_add, repeat_count, RepeatPrefix};

verus! {

/// A key as the classifier sees it.
#[derive(Clone, Copy, Debug, PartialEq, Eq, Structural)]
pub enum KeyCode {
    Char(char),
    Up,
    Down,
    Enter,
    PageUp,
    PageDown,
    Other,
}

/// The modifier held with a key; any combination but these three is `Other`.
#[derive(Clone, Copy, Debug, PartialEq, Eq, Structural)]
pub enum Modifiers {
    Plain,
    Shift,
    Control,
    Other,
}

/// A raw terminal event.
#[derive(Clone, Copy, Debug, PartialEq, Eq, Structural)]
pub enum Event {
    Key(KeyCode, Modifiers),
    WheelUp,
    WheelDown,
    /// New terminal size: columns, then rows.
    Resize(u16, u16),
    Other,
}

/// The active search direction.
#[derive(Clone, Copy, Debug, PartialEq, Eq, Structural)]
pub enum SearchMode {
    Unknown,
    Forward,
    Reverse,
}

/// What the viewer is asked to do.
#[derive(Clone, Copy, Debug, PartialEq, Eq, Structural)]
pub enum Command {
    Exit,
    /// Columns, then rows.
    UpdateTermArea(usize, usize),
    UpdateUpperMark(usize),
    UpdateLineNumber(bool),
    RestorePrompt,
    Search(SearchMode),
    NextMatch,
    PrevMatch,
}

/// `mark - k`, held at 0.
pub open spec fn scroll_up(mark: usize, k: nat) -> usize {
    if k <= mark {
        (mark - k) as usize
    } else {
        0
    }
}

/// `mark + k`, held at the largest `usize`.
pub open spec fn scroll_down(mark: usize, k: nat) -> usize {
    clamp_add(mark as nat, k) as usize
}

/// The step of a full page: one row less than the screen.
pub open spec fn page_step(rows: usize) -> nat {
    if rows > 0 {
        (rows - 1) as nat
    } else {
        0
    }
}

pub open spec fn plain(ev: Event, code: KeyCode) -> bool {
    ev == Event::Key(code, Modifiers::Plain)
}

/// The digit that an unmodified key `0` to `9` stands for.
pub open spec fn digit_key(ev: Event) -> Option<u8> {
    match ev {
        Event::Key(KeyCode::Char(c), Modifiers::Plain) => {
            if '0' <= c && c <= '9' {
                Some((c as u32 - '0' as u32) as u8)
            } else {
                None
            }
        },
        _ => None,
    }
}

/// Keys that scroll up by the repeat count.
pub open spec fn counted_up(ev: Event) -> bool {
    plain(ev, KeyCode::Up) || plain(ev, KeyCode::Char('k'))
}

/// Keys that scroll down by the repeat count; Enter only while no message is shown.
pub open spec fn counted_down(ev: Event, message: bool) -> bool {
    plain(ev, KeyCode::Down) || plain(ev, KeyCode::Char('j')) || (plain(ev, KeyCode::Enter)
        && !message)
}

/// What the classifier keeps between events.
pub struct HandlerView {
    pub digits: Seq<u8>,
    pub undo: Seq<usize>,
    pub redo: Seq<usize>,
}

/// A counted movement: history gets the mark left behind, the prefix is consumed.
pub open spec fn counted_move(h: HandlerView, mark: usize, target: usize) -> (HandlerView, Option<
    Command,
>) {
    (
        HandlerView { digits: Seq::empty(), undo: h.undo.push(mark), redo: h.redo },
        Some(Command::UpdateUpperMark(target)),
    )
}

/// Back to the latest recorded mark; the mark left behind goes to redo.
pub open spec fn undo_step(h: HandlerView, mark: usize) -> (HandlerView, Option<Command>) {
    if h.undo.len() == 0 {
        (h, None)
    } else {
        (
            HandlerView { digits: h.digits, undo: h.undo.drop_last(), redo: h.redo.push(mark) },
            Some(Command::UpdateUpperMark(h.undo.last())),
        )
    }
}

/// Forth to the latest undone mark; the mark left behind goes to undo.
pub open spec fn redo_step(h: HandlerView, mark: usize) -> (HandlerView, Option<Command>) {
    if h.redo.len() == 0 {
        (h, None)
    } else {
        (
            HandlerView { digits: h.digits, undo: h.undo.push(mark), redo: h.redo.drop_last() },
            Some(Command::UpdateUpperMark(h.redo.last())),
        )
    }
}

/// The commands of keys that use neither the repeat count nor the history.
pub open spec fn key_command_spec(
    code: KeyCode,
    mods: Modifiers,
    mark: usize,
    mode: SearchMode,
    ln: bool,
    rows: usize,
) -> Option<Command> {
    let is_plain = mods == Modifiers::Plain;
    if code == KeyCode::Char('u') && mods == Modifiers::Control {
        Some(Command::UpdateUpperMark(scroll_up(mark, (rows / 2) as nat)))
    } else if code == KeyCode::Char('d') && (mods == Modifiers::Control || is_plain) {
        Some(Command::UpdateUpperMark(scroll_down(mark, (rows / 2) as nat)))
    } else if code == KeyCode::Char('g') && is_plain {
        Some(Command::UpdateUpperMark(0))
    } else if (code == KeyCode::Char('g') && mods == Modifiers::Shift) || (code == KeyCode::Char(
        'G',
    ) && (mods == Modifiers::Shift || is_plain)) {
        Some(Command::UpdateUpperMark(usize::MAX))
    } else if code == KeyCode::PageUp && is_plain {
        Some(Command::UpdateUpperMark(scroll_up(mark, page_step(rows))))
    } else if (code == KeyCode::PageDown || code == KeyCode::Char(' ')) && is_plain {
        Some(Command::UpdateUpperMark(scroll_down(mark, page_step(rows))))
    } else if code == KeyCode::Char('l') && is_plain {
        Some(Command::UpdateLineNumber(!ln))
    } else if (code == KeyCode::Char('q') && is_plain) || (code == KeyCode::Char('c') && mods
        == Modifiers::Control) {
        Some(Command::Exit)
    } else if code == KeyCode::Char('/') && is_plain {
        Some(Command::Search(SearchMode::Forward))
    } else if code == KeyCode::Char('?') && is_plain {
        Some(Command::Search(SearchMode::Reverse))
    } else if code == KeyCode::Char('n') && is_plain {
        if mode == SearchMode::Reverse {
            Some(Command::PrevMatch)
        } else {
            Some(Command::NextMatch)
        }
    } else if code == KeyCode::Char('p') && is_plain {
        if mode == SearchMode::Reverse {
            Some(Command::NextMatch)
        } else {
            Some(Command::PrevMatch)
        }
    } else {
        None
    }
}

/// The commands of events that use neither the repeat count nor the history.
pub open spec fn plain_command_spec(
    ev: Event,
    mark: usize,
    mode: SearchMode,
    ln: bool,
    rows: usize,
) -> Option<Command> {
    match ev {
        Event::Key(code, mods) => key_command_spec(code, mods, mark, mode, ln, rows),
        Event::WheelUp => Some(Command::UpdateUpperMark(scroll_up(mark, 5))),
        Event::WheelDown => Some(Command::UpdateUpperMark(scroll_down(mark, 5))),
        Event::Resize(cols, rs) => Some(Command::UpdateTermArea(cols as usize, rs as usize)),
        Event::Other => None,
    }
}

/// One event: the classifier's new state and the command it emits, if any.
pub open spec fn classify_spec(
    h: HandlerView,
    ev: Event,
    mark: usize,
    mode: SearchMode,
    ln: bool,
    message: bool,
    rows: usize,
) -> (HandlerView, Option<Command>) {
    if digit_key(ev) is Some {
        (
            HandlerView { digits: h.digits.push(digit_key(ev)->0), undo: h.undo, redo: h.redo },
            None,
        )
    } else if counted_up(ev) {
        counted_move(h, mark, scroll_up(mark, repeat_count(h.digits)))
    } else if counted_down(ev, message) {
        counted_move(h, mark, scroll_down(mark, repeat_count(h.digits)))
    } else if plain(ev, KeyCode::Enter) {
        (h, Some(Command::RestorePrompt))
    } else if plain(ev, KeyCode::Char('u')) {
        undo_step(h, mark)
    } else if plain(ev, KeyCode::Char('r')) {
        redo_step(h, mark)
    } else {
        (h, plain_command_spec(ev, mark, mode, ln, rows))
    }
}

fn key_command(
    code: KeyCode,
    mods: Modifiers,
    mark: usize,
    mode: SearchMode,
    ln: bool,
    rows: usize,
) -> (r: Option<Command>)
    ensures
        r == key_command_spec(code, mods, mark, mode, ln, rows),
{
    let is_plain = mods == Modifiers::Plain;
    let page: usize = rows.saturating_sub(1);
    if code == KeyCode::Char('u') && mods == Modifiers::Control {
        Some(Command::UpdateUpperMark(mark.saturating_sub(rows / 2)))
    } else if code == KeyCode::Char('d') && (mods == Modifiers::Control || is_plain) {
        Some(Command::UpdateUpperMark(mark.saturating_add(rows / 2)))
    } else if code == KeyCode::Char('g') && is_plain {
        Some(Command::UpdateUpperMark(0))
    } else if (code == KeyCode::Char('g') && mods == Modifiers::Shift) || (code == KeyCode::Char(
        'G',
    ) && (mods == Modifiers::Shift || is_plain)) {
        Some(Command::UpdateUpperMark(usize::MAX))
    } else if code == KeyCode::PageUp && is_plain {
        Some(Command::UpdateUpperMark(mark.saturating_sub(page)))
    } else if (code == KeyCode::PageDown || code == KeyCode::Char(' ')) && is_plain {
        Some(Command::UpdateUpperMark(mark.saturating_add(page)))
    } else if code == KeyCode::Char('l') && is_plain {
        Some(Command::UpdateLineNumber(!ln))
    } else if (code == KeyCode::Char('q') && is_plain) || (code == KeyCode::Char('c') && mods
        == Modifiers::Control) {
        Some(Command::Exit)
    } else if code == KeyCode::Char('/') && is_plain {
        Some(Command::Search(SearchMode::Forward))
    } else if code == KeyCode::Char('?') && is_plain {
        Some(Command::Search(SearchMode::Reverse))
    } else if code == KeyCode::Char('n') && is_plain {
        if mode == SearchMode::Reverse {
            Some(Command::PrevMatch)
        } else {
            Some(Command::NextMatch)
        }
    } else if code == KeyCode::Char('p') && is_plain {
        if mode == SearchMode::Reverse {
            Some(Command::NextMatch)
        } else {
            Some(Command::PrevMatch)
        }
    } else {
        None
    }
}


fn plain_command(ev: Event, mark: usize, mode: SearchMode, ln: bool, rows: usize) -> (r: Option<
    Command,
>)
    ensures
        r == plain_command_spec(ev, mark, mode, ln, rows),
{
    match ev {
        Event::Key(code, mods) => key_command(code, mods, mark, mode, ln, rows),
        Event::WheelUp => Some(Command::UpdateUpperMark(mark.saturating_sub(5))),
        Event::WheelDown => Some(Command::UpdateUpperMark(mark.saturating_add(5))),
        Event::Resize(cols, rs) => Some(Command::UpdateTermArea(cols as usize, rs as usize)),
        Event::Other => None,
    }
}

fn digit_of(ev: Event) -> (r: Option<u8>)
    ensures
        r == digit_key(ev),
{
    match ev {
        Event::Key(KeyCode::Char(c), Modifiers::Plain) => {
            if '0' <= c && c <= '9' {
                Some((c as u32 - '0' as u32) as u8)
            } else {
                None
            }
        },
        _ => None,
    }
}

/// The pager's input classifier: turns terminal events into viewer commands,
/// keeping the pending repeat count and the navigation history.
pub struct CustomInputHandler {
    prefix: RepeatPrefix,
    history: History,
}

impl View for CustomInputHandler {
    type V = HandlerView;

    closed spec fn view(&self) -> HandlerView {
        HandlerView {
            digits: self.prefix@,
            undo: self.history.undo_stack(),
            redo: self.history.redo_stack(),
        }
    }
}

impl CustomInputHandler {
    pub closed spec fn wf(&self) -> bool {
        self.prefix.wf()
    }

    /// A classifier with no pending digits and empty history.
    pub fn new() -> (r: CustomInputHandler)
        ensures
            r.wf(),
            r@.digits == Seq::<u8>::empty(),
            r@.undo == Seq::<usize>::empty(),
            r@.redo == Seq::<usize>::empty(),
    {
        CustomInputHandler { prefix: RepeatPrefix::new(), history: History::new() }
    }

    /// Classifies one event given the viewer's mark, search mode, line-number
    /// flag, whether a message is shown, and the screen's row count.
    ///
    /// Unmodified `u` and `r` are undo and redo; the half-page scroll up is
    /// Ctrl-`u` alone. Only Up/`k`, Down/`j` and Enter use the repeat count and
    /// record history, and a new movement leaves the redo stack as it is.
    /// Undo keeps the mark it leaves on the redo stack (rather than the mark
    /// it pops), so that redo after undo returns to where the view was.
    pub fn classify_input(
        &mut self,
        ev: Event,
        upper_mark: usize,
        search_mode: SearchMode,
        ln: bool,
        message: bool,
        rows: usize,
    ) -> (r: Option<Command>)
        requires
            old(self).wf(),
        ensures
            final(self).wf(),
            (final(self)@, r) == classify_spec(
                old(self)@,
                ev,
                upper_mark,
                search_mode,
                ln,
                message,
                rows,
            ),
    {
        if let Some(d) = digit_of(ev) {
            self.prefix.push_digit(d);
            return None;
        }
        let up = ev == Event::Key(KeyCode::Up, Modifiers::Plain) || ev == Event::Key(
            KeyCode::Char('k'),
            Modifiers::Plain,
        );
        let enter = ev == Event::Key(KeyCode::Enter, Modifiers::Plain);
        let down = ev == Event::Key(KeyCode::Down, Modifiers::Plain) || ev == Event::Key(
            KeyCode::Char('j'),
            Modifiers::Plain,
        ) || (enter && !message);
        if up {
            let count = self.prefix.resolve();
            self.history.record(upper_mark);
            Some(Command::UpdateUpperMark(upper_mark.saturating_sub(count)))
        } else if down {
            let count = self.prefix.resolve();
            self.history.record(upper_mark);
            Some(Command::UpdateUpperMark(upper_mark.saturating_add(count)))
        } else if enter {
            Some(Command::RestorePrompt)
        } else if ev == Event::Key(KeyCode::Char('u'), Modifiers::Plain) {
            match self.history.undo(upper_mark) {
                Some(m) => Some(Command::UpdateUpperMark(m)),
                None => None,
            }
        } else if ev == Event::Key(KeyCode::Char('r'), Modifiers::Plain) {
            match self.history.redo(upper_mark) {
                Some(m) => Some(Command::UpdateUpperMark(m)),
                None => None,
            }
        } else {
            plain_command(ev, upper_mark, search_mode, ln, rows)
        }
    }
}

} // verus!

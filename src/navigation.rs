use vstd::prelude::*;
use crate::input::{
    classify_spec, counted_down, counted_up, scroll_down, scroll_up, Command, Event, HandlerView,
    KeyCode, Modifiers, SearchMode,
};
use crate::prefix::{all_digits, decimal_value, fold_digits, lemma_fold_is_decimal, max_usize};

verus! {

/// The mark after the viewer carries out a command.
pub open spec fn apply_mark(mark: usize, c: Option<Command>) -> usize {
    match c {
        Some(Command::UpdateUpperMark(m)) => m,
        _ => mark,
    }
}

/// One event against a viewer that shows no message, has no active search,
/// hides line numbers and has `rows` rows.
pub open spec fn step(h: HandlerView, mark: usize, ev: Event, rows: usize) -> (HandlerView, usize) {
    let (h2, c) = classify_spec(h, ev, mark, SearchMode::Unknown, false, false, rows);
    (h2, apply_mark(mark, c))
}

/// Events one after another, each command carried out before the next event.
pub open spec fn run(h: HandlerView, mark: usize, evs: Seq<Event>, rows: usize) -> (
    HandlerView,
    usize,
)
    decreases evs.len(),
{
    if evs.len() == 0 {
        (h, mark)
    } else {
        let (h1, m1) = run(h, mark, evs.drop_last(), rows);
        step(h1, m1, evs.last(), rows)
    }
}

pub open spec fn key(c: char) -> Event {
    Event::Key(KeyCode::Char(c), Modifiers::Plain)
}

pub open spec fn digit_value(c: char) -> u8 {
    (c as u32 - '0' as u32) as u8
}

pub open spec fn is_digit_char(c: char) -> bool {
    '0' <= c && c <= '9'
}

pub open spec fn key_events(keys: Seq<char>) -> Seq<Event> {
    keys.map_values(|c: char| key(c))
}

pub open spec fn digits_of(keys: Seq<char>) -> Seq<u8> {
    keys.map_values(|c: char| digit_value(c))
}

/// A movement that uses the repeat count and records history.
pub open spec fn counted_movement(ev: Event) -> bool {
    counted_up(ev) || counted_down(ev, false)
}

pub open spec fn undo_key() -> Event {
    key('u')
}

pub open spec fn redo_key() -> Event {
    key('r')
}

pub open spec fn repeated(ev: Event, n: nat) -> Seq<Event> {
    Seq::new(n, |i: int| ev)
}

pub proof fn lemma_run_concat(h: HandlerView, mark: usize, a: Seq<Event>, b: Seq<Event>, rows: usize)
    ensures
        run(h, mark, a + b, rows) == run(run(h, mark, a, rows).0, run(h, mark, a, rows).1, b, rows),
    decreases b.len(),
{
    if b.len() == 0 {
        assert(a + b =~= a);
    } else {
        assert((a + b).drop_last() =~= a + b.drop_last());
        lemma_run_concat(h, mark, a, b.drop_last(), rows);
    }
}

proof fn lemma_feed_digits(h: HandlerView, mark: usize, keys: Seq<char>, rows: usize)
    requires
        forall|i: int| 0 <= i < keys.len() ==> is_digit_char(keys[i]),
    ensures
        run(h, mark, key_events(keys), rows) == (
            HandlerView { digits: h.digits + digits_of(keys), undo: h.undo, redo: h.redo },
            mark,
        ),
    decreases keys.len(),
{
    if keys.len() == 0 {
        assert(h.digits + digits_of(keys) =~= h.digits);
    } else {
        let init = keys.drop_last();
        assert(key_events(keys).drop_last() =~= key_events(init));
        lemma_feed_digits(h, mark, init, rows);
        assert(h.digits + digits_of(keys) =~= (h.digits + digits_of(init)).push(
            digit_value(keys.last()),
        ));
    }
}

/// Digit keys followed by a counted movement move the mark by the base-10
/// value of the digits (held at 0 and at the largest `usize`), and leave no
/// digit pending.
pub proof fn lemma_repeat_count(h: HandlerView, mark: usize, keys: Seq<char>, ev: Event, rows: usize)
    requires
        h.digits.len() == 0,
        keys.len() > 0,
        forall|i: int| 0 <= i < keys.len() ==> is_digit_char(keys[i]),
        counted_movement(ev),
    ensures
        ({
            let (h1, m1) = run(h, mark, key_events(keys).push(ev), rows);
            let n = decimal_value(digits_of(keys));
            &&& h1.digits.len() == 0
            &&& counted_up(ev) ==> m1 == scroll_up(mark, n)
            &&& counted_down(ev, false) ==> m1 == scroll_down(mark, n)
        }),
{
    lemma_feed_digits(h, mark, keys, rows);
    let ds = digits_of(keys);
    assert(h.digits + ds =~= ds);
    assert(key_events(keys).push(ev).drop_last() =~= key_events(keys));
    assert(all_digits(ds));
    lemma_fold_is_decimal(ds);
}

/// Undo and Redo on an empty stack emit nothing and change nothing.
pub proof fn lemma_empty_history(
    h: HandlerView,
    mark: usize,
    mode: SearchMode,
    ln: bool,
    message: bool,
    rows: usize,
)
    ensures
        h.undo.len() == 0 ==> classify_spec(h, undo_key(), mark, mode, ln, message, rows) == (
            h,
            None::<Command>,
        ),
        h.redo.len() == 0 ==> classify_spec(h, redo_key(), mark, mode, ln, message, rows) == (
            h,
            None::<Command>,
        ),
{
}

/// `n` while searching in reverse does what `p` does while searching
/// forward, and the other way round.
pub proof fn lemma_match_keys_mirror(h: HandlerView, mark: usize, ln: bool, message: bool, rows: usize)
    ensures
        classify_spec(h, key('n'), mark, SearchMode::Reverse, ln, message, rows) == classify_spec(
            h,
            key('p'),
            mark,
            SearchMode::Forward,
            ln,
            message,
            rows,
        ),
        classify_spec(h, key('p'), mark, SearchMode::Reverse, ln, message, rows) == classify_spec(
            h,
            key('n'),
            mark,
            SearchMode::Forward,
            ln,
            message,
            rows,
        ),
{
}

/// A resize only reports the new size: the classifier's state, the mark and
/// the search mode stay as they were.
pub proof fn lemma_resize(
    h: HandlerView,
    mark: usize,
    mode: SearchMode,
    ln: bool,
    message: bool,
    rows: usize,
    cols: u16,
    new_rows: u16,
)
    ensures
        classify_spec(h, Event::Resize(cols, new_rows), mark, mode, ln, message, rows) == (
            h,
            Some(Command::UpdateTermArea(cols as usize, new_rows as usize)),
        ),
        step(h, mark, Event::Resize(cols, new_rows), rows) == (h, mark),
{
}

/// Scrolling saturates: up never goes below 0, down never wraps past the
/// largest `usize`, and otherwise both move by exactly `k`.
pub proof fn lemma_scroll_saturates(mark: usize, k: nat)
    ensures
        scroll_up(mark, k) <= mark,
        scroll_up(mark, k) == if k <= mark { mark - k } else { 0 },
        scroll_down(mark, k) >= mark,
        scroll_down(mark, k) == if mark + k <= max_usize() { mark + k } else { max_usize() as int },
{
}


/// The marks a run of movements passes through: before each movement, and
/// after the last.
pub open spec fn trail(h: HandlerView, mark: usize, moves: Seq<Event>, rows: usize) -> Seq<usize> {
    Seq::new(moves.len() + 1, |i: int| run(h, mark, moves.take(i), rows).1)
}

proof fn lemma_moves_record(h: HandlerView, mark: usize, moves: Seq<Event>, rows: usize, k: nat)
    requires
        h.digits.len() == 0,
        forall|i: int| 0 <= i < moves.len() ==> counted_movement(#[trigger] moves[i]),
        k <= moves.len(),
    ensures
        run(h, mark, moves.take(k as int), rows).0 == (HandlerView {
            digits: Seq::empty(),
            undo: h.undo + trail(h, mark, moves, rows).take(k as int),
            redo: h.redo,
        }),
    decreases k,
{
    let t = trail(h, mark, moves, rows);
    if k == 0 {
        assert(moves.take(0) =~= Seq::<Event>::empty());
        assert(h.undo + t.take(0) =~= h.undo);
        assert(h.digits =~= Seq::<u8>::empty());
    } else {
        lemma_moves_record(h, mark, moves, rows, (k - 1) as nat);
        assert(moves.take(k as int).drop_last() =~= moves.take(k - 1));
        assert(moves.take(k as int).last() == moves[k - 1]);
        assert(h.undo + t.take(k as int) =~= (h.undo + t.take(k - 1)).push(t[k - 1]));
    }
}

/// `j` undos from mark `s[n]`, with `s[0..n]` on top of the undo stack.
proof fn lemma_undos_replay(
    u: Seq<usize>,
    s: Seq<usize>,
    r: Seq<usize>,
    j: nat,
    rows: usize,
)
    requires
        s.len() >= 1,
        j < s.len(),
    ensures
        ({
            let n = s.len() - 1;
            let start = HandlerView { digits: Seq::empty(), undo: u + s.take(n), redo: r };
            let (h1, m1) = run(start, s[n], repeated(undo_key(), j), rows);
            &&& h1 == (HandlerView {
                digits: Seq::empty(),
                undo: u + s.take(n - j),
                redo: r + Seq::new(j, |i: int| s[n - i]),
            })
            &&& m1 == s[n - j]
        }),
    decreases j,
{
    let n = s.len() - 1;
    if j == 0 {
        assert(r + Seq::new(0, |i: int| s[n - i]) =~= r);
    } else {
        lemma_undos_replay(u, s, r, (j - 1) as nat, rows);
        assert(repeated(undo_key(), j).drop_last() =~= repeated(undo_key(), (j - 1) as nat));
        let undo1 = u + s.take(n - (j - 1));
        assert(undo1.last() == s[n - j]);
        assert(undo1.drop_last() =~= u + s.take(n - j));
        assert((r + Seq::new((j - 1) as nat, |i: int| s[n - i])).push(s[n - (j - 1)]) =~= r
            + Seq::new(j, |i: int| s[n - i]));
    }
}

/// After N counted movements, N Undos bring the mark back to where it stood
/// before the first movement, and a Redo right after brings back the mark
/// that the first movement reached.
pub proof fn lemma_undo_restores(h: HandlerView, mark: usize, moves: Seq<Event>, rows: usize)
    requires
        h.digits.len() == 0,
        moves.len() > 0,
        forall|i: int| 0 <= i < moves.len() ==> counted_movement(#[trigger] moves[i]),
    ensures
        run(h, mark, moves + repeated(undo_key(), moves.len()), rows).1 == mark,
        run(h, mark, (moves + repeated(undo_key(), moves.len())).push(redo_key()), rows).1
            == run(h, mark, moves.take(1), rows).1,
{
    let n = moves.len();
    let t = trail(h, mark, moves, rows);
    let undos = repeated(undo_key(), n);
    lemma_run_concat(h, mark, moves, undos, rows);
    lemma_moves_record(h, mark, moves, rows, n);
    assert(moves.take(n as int) =~= moves);
    assert(t[n as int] == run(h, mark, moves, rows).1);
    lemma_undos_replay(h.undo, t, h.redo, n, rows);
    assert(moves.take(0) =~= Seq::<Event>::empty());
    assert(t[0] == mark);
    assert(t[1] == run(h, mark, moves.take(1), rows).1);
    assert((moves + undos).push(redo_key()).drop_last() =~= moves + undos);
}

} // verus!

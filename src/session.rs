use vstd::prelude::*;
use crate::input::Command;
use crate::queue::{advance_spec, queue_wf, Document, DocumentQueue, QueueView};

verus! {

/// The message shown when a forward scroll first meets the end of a document.
pub const EOF_NOTICE: &'static str = "EOF";

/// Where the session stands.
#[derive(Clone, Copy, Debug, PartialEq, Eq, Structural)]
pub enum SessionState {
    /// Showing the document of this index.
    Viewing(usize),
    /// At the end of the document of this index; one more forward scroll moves on.
    AtEnd(usize),
    Exited,
}

/// What the viewer is asked to do after a forward scroll.
#[derive(Debug)]
pub enum Action {
    /// Move the mark as requested.
    Scroll(usize),
    /// Move the mark as requested and show the end-of-document notice.
    ScrollWithNotice(usize),
    /// Show this document from its top: mark 0, its text and its identifier as prompt.
    Open(Document),
    Exit,
    /// Nothing to do for now.
    Stay,
}

/// One forward scroll to `target`; `at_end` is the viewer's report that the
/// document's last line is already on screen.
pub open spec fn forward_spec(
    s: SessionState,
    quit_on_eof: bool,
    at_end: bool,
    target: usize,
    q: QueueView,
) -> (SessionState, QueueView, Action) {
    match s {
        SessionState::Exited => (s, q, Action::Stay),
        SessionState::Viewing(i) => {
            if at_end {
                (SessionState::AtEnd(i), q, Action::ScrollWithNotice(target))
            } else {
                (s, q, Action::Scroll(target))
            }
        },
        SessionState::AtEnd(i) => {
            if !at_end {
                (SessionState::Viewing(i), q, Action::Scroll(target))
            } else {
                match advance_spec(q).1 {
                    Some(d) => (
                        SessionState::Viewing(q.cursor as usize),
                        advance_spec(q).0,
                        Action::Open(d),
                    ),
                    None => {
                        if quit_on_eof {
                            (SessionState::Exited, q, Action::Exit)
                        } else {
                            (s, q, Action::Stay)
                        }
                    },
                }
            }
        },
    }
}

/// Any command that moves the view off the end of the document.
pub open spec fn leave_end_spec(s: SessionState) -> SessionState {
    match s {
        SessionState::AtEnd(i) => SessionState::Viewing(i),
        _ => s,
    }
}

/// The mark once the viewer has carried out an action.
pub open spec fn mark_after(a: Action, mark: usize) -> usize {
    match a {
        Action::Scroll(t) => t,
        Action::ScrollWithNotice(t) => t,
        Action::Open(_) => 0,
        _ => mark,
    }
}

/// At the end of a document, a forward scroll shows the notice and hands out
/// nothing. A second one right after opens the next loaded document at mark
/// 0; with none loaded, it exits when asked to quit at the end, and otherwise
/// waits for more loads or an explicit quit.
pub proof fn lemma_end_of_document(
    i: usize,
    quit_on_eof: bool,
    mark: usize,
    t1: usize,
    t2: usize,
    q: QueueView,
)
    requires
        queue_wf(q),
    ensures
        ({
            let (s1, q1, a1) = forward_spec(SessionState::Viewing(i), quit_on_eof, true, t1, q);
            let (s2, q2, a2) = forward_spec(s1, quit_on_eof, true, t2, q1);
            &&& s1 == SessionState::AtEnd(i)
            &&& q1 == q
            &&& a1 == Action::ScrollWithNotice(t1)
            &&& q.cursor < q.docs.len() ==> {
                &&& a2 == Action::Open(q.docs[q.cursor as int])
                &&& mark_after(a2, mark) == 0
                &&& s2 == SessionState::Viewing(q.cursor as usize)
                &&& q2 == (QueueView { cursor: q.cursor + 1, ..q })
            }
            &&& q.cursor == q.docs.len() ==> q2 == q
            &&& (q.cursor == q.docs.len() && quit_on_eof) ==> {
                &&& s2 == SessionState::Exited
                &&& a2 == Action::Exit
            }
            &&& (q.cursor == q.docs.len() && !quit_on_eof) ==> {
                &&& s2 == s1
                &&& a2 == Action::Stay
            }
        }),
{
}

/// The target of a command that moves the mark forward, past `mark`.
pub fn forward_target(cmd: Command, mark: usize) -> (r: Option<usize>)
    ensures
        r == if cmd is UpdateUpperMark && cmd->UpdateUpperMark_0 > mark {
            Some(cmd->UpdateUpperMark_0)
        } else {
            None
        },
{
    match cmd {
        Command::UpdateUpperMark(t) => {
            if t > mark {
                Some(t)
            } else {
                None
            }
        },
        _ => None,
    }
}

/// The viewer's boundary test: the screen, `rows` tall from `upper_mark`,
/// already reaches the last of `line_count` formatted lines.
pub fn at_document_end(upper_mark: usize, rows: usize, line_count: usize) -> (r: bool)
    ensures
        r == (upper_mark + rows >= line_count),
{
    upper_mark.saturating_add(rows) >= line_count
}

/// Decides the hand-off from one document to the next.
pub struct SessionController {
    pub state: SessionState,
    pub quit_on_eof: bool,
}

impl SessionController {
    /// A session showing its first document.
    pub fn new(quit_on_eof: bool) -> (r: SessionController)
        ensures
            r.state == SessionState::Viewing(0),
            r.quit_on_eof == quit_on_eof,
    {
        SessionController { state: SessionState::Viewing(0), quit_on_eof }
    }

    /// A forward scroll to `target`: scrolls, or at the end of the document
    /// first shows the notice, then on the next such scroll opens the next
    /// loaded document or, with none loaded, exits when asked to quit at the end.
    pub fn on_forward(&mut self, at_end: bool, target: usize, queue: &mut DocumentQueue) -> (r:
        Action)
        requires
            old(queue).wf(),
        ensures
            final(queue).wf(),
            final(self).quit_on_eof == old(self).quit_on_eof,
            (final(self).state, final(queue)@, r) == forward_spec(
                old(self).state,
                old(self).quit_on_eof,
                at_end,
                target,
                old(queue)@,
            ),
    {
        match self.state {
            SessionState::Exited => Action::Stay,
            SessionState::Viewing(i) => {
                if at_end {
                    self.state = SessionState::AtEnd(i);
                    Action::ScrollWithNotice(target)
                } else {
                    Action::Scroll(target)
                }
            },
            SessionState::AtEnd(i) => {
                if !at_end {
                    self.state = SessionState::Viewing(i);
                    Action::Scroll(target)
                } else {
                    let index = queue.cursor();
                    match queue.advance() {
                        Some(d) => {
                            self.state = SessionState::Viewing(index);
                            Action::Open(d)
                        },
                        None => {
                            if self.quit_on_eof {
                                self.state = SessionState::Exited;
                                Action::Exit
                            } else {
                                Action::Stay
                            }
                        },
                    }
                }
            },
        }
    }

    /// A command moved the view off the end of the document.
    pub fn on_leave_end(&mut self)
        ensures
            final(self).state == leave_end_spec(old(self).state),
            final(self).quit_on_eof == old(self).quit_on_eof,
    {
        if let SessionState::AtEnd(i) = self.state {
            self.state = SessionState::Viewing(i);
        }
    }

    /// The session was told to quit.
    pub fn on_exit(&mut self)
        ensures
            final(self).state == SessionState::Exited,
            final(self).quit_on_eof == old(self).quit_on_eof,
    {
        self.state = SessionState::Exited;
    }
}

} // verus!

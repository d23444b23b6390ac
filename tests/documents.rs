use rless::queue::{Body, Document, DocumentQueue};
use rless::session::{at_document_end, forward_target, Action, SessionController, SessionState};
use rless::input::Command;

fn doc(id: &str, text: &str) -> Document {
    Document { identifier: id.to_string(), body: Body::Loaded(text.to_string()) }
}

fn id_of(d: &Option<Document>) -> Option<String> {
    d.as_ref().map(|d| d.identifier.clone())
}

#[test]
fn first_document_is_ready_at_once() {
    let q = DocumentQueue::new(doc("a.txt", "alpha"), 3);
    assert_eq!(q.first().identifier, "a.txt");
    assert!(matches!(&q.first().body, Body::Loaded(t) if t == "alpha"));
    assert!(q.pending());
    assert!(!q.exhausted());
    let s = SessionController::new(false);
    assert_eq!(s.state, SessionState::Viewing(0));
}

#[test]
fn each_file_handed_out_once_in_completion_order() {
    for order in [["c.txt", "b.txt"], ["b.txt", "c.txt"]] {
        let mut q = DocumentQueue::new(doc("a.txt", "A"), 3);
        let mut none_yet = q.advance();
        assert!(none_yet.is_none());
        assert!(q.append(doc(order[0], "first done")));
        assert!(q.append(doc(order[1], "second done")));
        assert!(!q.pending());
        none_yet = q.advance();
        assert_eq!(id_of(&none_yet), Some(order[0].to_string()));
        assert_eq!(id_of(&q.advance()), Some(order[1].to_string()));
        assert!(q.advance().is_none());
        assert!(q.exhausted());
        assert_eq!(q.len(), 3);
    }
}

#[test]
fn append_beyond_total_is_refused() {
    let mut q = DocumentQueue::new(doc("a", ""), 2);
    assert!(q.append(doc("b", "")));
    assert!(!q.append(doc("c", "")));
    assert_eq!(q.len(), 2);
    assert_eq!(q.total(), 2);
}

#[test]
fn failed_load_still_fills_its_slot() {
    let mut q = DocumentQueue::new(doc("a", "A"), 2);
    let failed = Document { identifier: "b".to_string(), body: Body::Failed("no such file".to_string()) };
    assert!(q.append(failed));
    assert!(!q.pending());
    let d = q.advance().unwrap();
    assert!(matches!(d.body, Body::Failed(ref e) if e == "no such file"));
    assert!(q.exhausted());
}

#[test]
fn second_forward_at_end_opens_next() {
    let mut q = DocumentQueue::new(doc("a", "A"), 2);
    q.append(doc("b", "B"));
    let mut s = SessionController::new(false);
    assert!(matches!(s.on_forward(false, 5, &mut q), Action::Scroll(5)));
    assert!(matches!(s.on_forward(true, 6, &mut q), Action::ScrollWithNotice(6)));
    assert_eq!(s.state, SessionState::AtEnd(0));
    assert_eq!(q.cursor(), 1);
    match s.on_forward(true, 7, &mut q) {
        Action::Open(d) => assert_eq!(d.identifier, "b"),
        _ => panic!("expected the next document"),
    }
    assert_eq!(s.state, SessionState::Viewing(1));
    assert_eq!(q.cursor(), 2);
}

#[test]
fn quit_on_eof_exits_after_last_file() {
    let mut q = DocumentQueue::new(doc("a", "A"), 1);
    let mut s = SessionController::new(true);
    assert!(matches!(s.on_forward(true, 3, &mut q), Action::ScrollWithNotice(3)));
    assert!(matches!(s.on_forward(true, 3, &mut q), Action::Exit));
    assert_eq!(s.state, SessionState::Exited);
    assert!(matches!(s.on_forward(true, 3, &mut q), Action::Stay));
}

#[test]
fn without_quit_on_eof_the_session_waits() {
    let mut q = DocumentQueue::new(doc("a", "A"), 1);
    let mut s = SessionController::new(false);
    s.on_forward(true, 3, &mut q);
    assert!(matches!(s.on_forward(true, 3, &mut q), Action::Stay));
    assert_eq!(s.state, SessionState::AtEnd(0));
}

#[test]
fn waiting_session_opens_a_late_load() {
    let mut q = DocumentQueue::new(doc("a", "A"), 2);
    let mut s = SessionController::new(false);
    s.on_forward(true, 0, &mut q);
    assert!(matches!(s.on_forward(true, 0, &mut q), Action::Stay));
    assert!(q.pending());
    q.append(doc("b", "B"));
    assert!(matches!(s.on_forward(true, 0, &mut q), Action::Open(_)));
}

#[test]
fn leaving_the_end_rearms_the_notice() {
    let mut q = DocumentQueue::new(doc("a", "A"), 2);
    q.append(doc("b", "B"));
    let mut s = SessionController::new(false);
    s.on_forward(true, 9, &mut q);
    s.on_leave_end();
    assert_eq!(s.state, SessionState::Viewing(0));
    assert!(matches!(s.on_forward(true, 9, &mut q), Action::ScrollWithNotice(9)));
    s.on_exit();
    assert_eq!(s.state, SessionState::Exited);
}

#[test]
fn end_of_document_boundary() {
    assert!(at_document_end(90, 10, 100));
    assert!(!at_document_end(89, 10, 100));
    assert!(at_document_end(usize::MAX, 10, 5));
    assert!(at_document_end(0, 24, 0));
}

#[test]
fn only_forward_moves_reach_the_controller() {
    assert_eq!(forward_target(Command::UpdateUpperMark(5), 3), Some(5));
    assert_eq!(forward_target(Command::UpdateUpperMark(3), 3), None);
    assert_eq!(forward_target(Command::UpdateUpperMark(1), 3), None);
    assert_eq!(forward_target(Command::Exit, 3), None);
}

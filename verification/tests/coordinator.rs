use middle_screenshot::driver::{Action, Driver};
use middle_screenshot::event::Event;
use middle_screenshot::image::PixelBuffer;
use middle_screenshot::lens::Lens;
use middle_screenshot::session::{CaptureSession, SessionState};
use middle_screenshot::windows::{CompletionAction, RedrawAction, Windows};

fn image(width: u32, height: u32) -> PixelBuffer {
    let rgba = vec![0u8; (4 * width * height) as usize];
    PixelBuffer::new(width, height, rgba).unwrap()
}

#[test]
fn drag_yields_one_capture() {
    let mut d = Driver::new();
    assert_eq!(d.handle(Event::Start), Action::Idle);
    assert_eq!(d.handle(Event::Move(50, 50)), Action::Idle);
    let a = d.handle(Event::End);
    assert_eq!(a, Action::Capture(Lens { x: 0, y: 0, width: 50, height: 50 }));
    // the drag is consumed: a second End asks for nothing
    assert_eq!(d.handle(Event::End), Action::Idle);
}

#[test]
fn small_drag_never_reaches_capture() {
    let mut d = Driver::new();
    d.handle(Event::Start);
    d.handle(Event::Move(3, 3));
    assert_eq!(d.handle(Event::End), Action::Idle);
    assert_eq!(d.windows.len(), 0);
}

#[test]
fn duplicate_start_keeps_original_point() {
    let mut d = Driver::new();
    d.handle(Event::Move(10, 10));
    d.handle(Event::Start);
    d.handle(Event::Move(20, 20));
    d.handle(Event::Start);
    d.handle(Event::Move(30, 30));
    let a = d.handle(Event::End);
    assert_eq!(a, Action::Capture(Lens { x: 10, y: 10, width: 20, height: 20 }));
}

#[test]
fn moves_track_position_without_drag() {
    let mut d = Driver::new();
    d.handle(Event::Move(40, 40));
    d.handle(Event::Start);
    d.handle(Event::Move(90, 100));
    let a = d.handle(Event::End);
    assert_eq!(a, Action::Capture(Lens { x: 40, y: 40, width: 50, height: 60 }));
}

#[test]
fn pause_and_resume_only_touch_the_tooltip() {
    let mut d = Driver::new();
    d.handle(Event::Start);
    assert_eq!(d.handle(Event::Pause), Action::Tooltip(true));
    assert_eq!(d.handle(Event::Resume), Action::Tooltip(false));
    d.handle(Event::Move(50, 50));
    // the pending drag survived the toggles
    assert_eq!(
        d.handle(Event::End),
        Action::Capture(Lens { x: 0, y: 0, width: 50, height: 50 })
    );
}

#[test]
fn close_of_absent_window_is_noop() {
    let mut w = Windows::new();
    w.destroy(42);
    assert_eq!(w.len(), 0);
    w.create(1, image(10, 10));
    w.destroy(42);
    assert_eq!(w.len(), 1);
    assert!(w.contains(1));
}

#[test]
fn create_registers_rendered_session() {
    let mut w = Windows::new();
    w.create(7, image(10, 10));
    assert_eq!(w.state_of(7), Some(SessionState::Rendered));
    assert_eq!(w.len(), 1);
}

#[test]
fn second_recognition_request_is_noop() {
    let mut w = Windows::new();
    w.create(1, image(10, 10));
    let first = w.ocr(1);
    assert!(first.is_some());
    assert_eq!(w.state_of(1), Some(SessionState::RecognitionRunning));
    // second request while running: no second worker
    assert!(w.ocr(1).is_none());
    assert_eq!(w.state_of(1), Some(SessionState::RecognitionRunning));
}

#[test]
fn recognition_request_on_absent_window_is_noop() {
    let mut w = Windows::new();
    assert!(w.ocr(9).is_none());
    assert_eq!(w.len(), 0);
}

#[test]
fn late_completion_is_dropped() {
    let mut w = Windows::new();
    w.create(1, image(10, 10));
    let img = w.ocr(1);
    assert!(img.is_some());
    w.destroy(1);
    let r = w.complete(1, Some("late".to_string()));
    assert_eq!(r, CompletionAction::Dropped);
    assert_eq!(w.len(), 0);
    assert!(!w.contains(1));
}

#[test]
fn completion_copies_text_and_closes() {
    let mut w = Windows::new();
    w.create(1, image(10, 10));
    w.ocr(1);
    let r = w.complete(1, Some("recognized".to_string()));
    assert_eq!(r, CompletionAction::CopyAndClose("recognized".to_string()));
    assert!(!w.contains(1));
}

#[test]
fn failed_completion_closes_without_copy() {
    let mut w = Windows::new();
    w.create(1, image(10, 10));
    w.ocr(1);
    let r = w.complete(1, None);
    assert_eq!(r, CompletionAction::CloseOnly);
    assert!(!w.contains(1));
}

#[test]
fn completion_without_running_recognition_is_dropped() {
    let mut w = Windows::new();
    w.create(1, image(10, 10));
    let r = w.complete(1, Some("text".to_string()));
    assert_eq!(r, CompletionAction::Dropped);
    assert_eq!(w.state_of(1), Some(SessionState::Rendered));
}

#[test]
fn redraw_renders_and_reschedules_while_running() {
    let mut w = Windows::new();
    assert_eq!(w.redraw(5), RedrawAction::Missing);
    w.create(5, image(10, 10));
    assert_eq!(w.redraw(5), RedrawAction::Render);
    w.ocr(5);
    assert_eq!(w.redraw(5), RedrawAction::RenderAndSchedule);
}

#[test]
fn driver_routes_close_and_redraw() {
    let mut d = Driver::new();
    d.windows.create(3, image(10, 10));
    assert_eq!(d.handle(Event::Redraw(3)), Action::Render(3));
    d.windows.ocr(3);
    assert_eq!(d.handle(Event::Redraw(3)), Action::RenderAndSchedule(3));
    assert_eq!(d.handle(Event::Redraw(8)), Action::Idle);
    assert_eq!(d.handle(Event::Close(3)), Action::Idle);
    assert_eq!(d.windows.len(), 0);
}

#[test]
fn session_lifecycle() {
    let mut s = CaptureSession::new(11, image(10, 10));
    assert_eq!(s.state, SessionState::Created);
    s.mark_rendered();
    assert_eq!(s.state, SessionState::Rendered);
    assert!(s.request_recognition());
    assert_eq!(s.state, SessionState::RecognitionRunning);
    assert!(!s.request_recognition());
    assert_eq!(s.state, SessionState::RecognitionRunning);
    s.complete_recognition();
    assert_eq!(s.state, SessionState::RecognitionDone);
    s.close();
    assert_eq!(s.state, SessionState::Closed);
    // closed is terminal: a recognition request stays a no-op
    assert!(!s.request_recognition());
    assert_eq!(s.state, SessionState::Closed);
}

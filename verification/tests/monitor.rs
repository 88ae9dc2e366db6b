use eco_selection::clipboard::Clipboard;
use eco_selection::extract::CopyOutcome;
use eco_selection::gesture::{DragState, PointerEvent};
use eco_selection::monitor::{MonitorState, StartAction};

#[test]
fn start_twice_installs_one_hook_and_succeeds_both_times() {
    let mut m = MonitorState::new();
    assert_eq!(m.start(), StartAction::InstallHook);
    m.hook_installed(42);
    assert_eq!(m.start(), StartAction::AlreadyRunning);
    assert!(m.running);
    assert_eq!(m.hook, Some(42));
}

#[test]
fn stop_releases_the_hook_and_is_idempotent() {
    let mut m = MonitorState::new();
    m.start();
    m.hook_installed(7);
    assert_eq!(m.stop(), Some(7));
    assert!(!m.running);
    assert_eq!(m.stop(), None);
    assert!(!m.running);
}

#[test]
fn refused_hook_rolls_the_start_back() {
    let mut m = MonitorState::new();
    assert_eq!(m.start(), StartAction::InstallHook);
    let e = m.hook_failed();
    assert_eq!(e.message(), "failed to install input hook");
    assert!(!m.running);
    assert_eq!(m.hook, None);
    // The next start may try again.
    assert_eq!(m.start(), StartAction::InstallHook);
}

#[test]
fn on_demand_extraction_works_after_stop() {
    let mut m = MonitorState::new();
    m.start();
    m.hook_installed(3);
    m.stop();
    let mut cb = Clipboard::empty();
    let r = m.get_selected_text_now(&mut cb, CopyOutcome::Copied("still works".to_string()));
    assert_eq!(r, Ok("still works".to_string()));
}

#[test]
fn motionless_drag_emits_nothing_and_keeps_the_clipboard() {
    let mut m = MonitorState::new();
    m.set_event_sink();
    m.start();
    m.hook_installed(1);
    let mut drag = DragState::new();
    let mut cb = Clipboard::with_text("old".to_string());

    assert_eq!(drag.on_event(PointerEvent::ButtonDown { x: 100, y: 100 }), None);
    let release = drag.on_event(PointerEvent::ButtonUp { x: 100, y: 100 });
    // No qualifying release, so no extraction runs and no event is emitted.
    assert_eq!(release, None);
    assert_eq!(cb.read_text(), Some("old".to_string()));
}

#[test]
fn qualifying_drag_emits_the_selection_event() {
    let mut m = MonitorState::new();
    m.set_event_sink();
    m.start();
    m.hook_installed(1);
    let mut drag = DragState::new();
    let mut cb = Clipboard::with_text("old".to_string());

    assert_eq!(drag.on_event(PointerEvent::ButtonDown { x: 100, y: 100 }), None);
    let release = drag
        .on_event(PointerEvent::ButtonUp { x: 140, y: 100 })
        .expect("a 40-pixel drag qualifies");

    let ev = m
        .run_extraction(release, &mut cb, CopyOutcome::Copied("new selection".to_string()))
        .expect("extracted text is forwarded");
    assert_eq!(ev.text, "new selection");
    assert_eq!(ev.x, 140);
    assert_eq!(ev.y, 100);
    assert_eq!(ev.trigger, "selected");
    // The non-empty prior value is written back once the text is captured.
    assert_eq!(cb.read_text(), Some("old".to_string()));
}

#[test]
fn empty_extraction_emits_nothing() {
    let mut m = MonitorState::new();
    m.set_event_sink();
    m.start();
    m.hook_installed(1);
    let mut drag = DragState::new();
    let mut cb = Clipboard::empty();

    drag.on_event(PointerEvent::ButtonDown { x: 0, y: 0 });
    let release = drag
        .on_event(PointerEvent::ButtonUp { x: 30, y: 0 })
        .expect("the drag qualifies");

    let ev = m.run_extraction(release, &mut cb, CopyOutcome::NoCopy);
    assert!(ev.is_none());
    assert_eq!(cb.read_text(), None);
}

#[test]
fn without_a_sink_events_are_dropped() {
    let m = MonitorState::new();
    let mut drag = DragState::new();
    let mut cb = Clipboard::empty();
    drag.on_event(PointerEvent::ButtonDown { x: 0, y: 0 });
    let release = drag.on_event(PointerEvent::ButtonUp { x: 0, y: 30 }).unwrap();
    let ev = m.run_extraction(release, &mut cb, CopyOutcome::Copied("text".to_string()));
    assert!(ev.is_none());
    // The extraction itself still ran against the clipboard.
    assert_eq!(cb.read_text(), Some("text".to_string()));
}

#[test]
fn failed_extraction_emits_nothing_and_restores() {
    let mut m = MonitorState::new();
    m.set_event_sink();
    let mut drag = DragState::new();
    let mut cb = Clipboard::with_text("old".to_string());
    drag.on_event(PointerEvent::ButtonDown { x: 0, y: 0 });
    let release = drag.on_event(PointerEvent::ButtonUp { x: 60, y: 0 }).unwrap();
    let ev = m.run_extraction(release, &mut cb, CopyOutcome::Rejected);
    assert!(ev.is_none());
    assert_eq!(cb.read_text(), Some("old".to_string()));
}

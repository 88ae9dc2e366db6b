use eco_selection::clipboard::Clipboard;
use eco_selection::errors::ExtractionError;
use eco_selection::extract::{extract_selected_text, should_restore, CopyOutcome};

#[test]
fn no_new_value_restores_prior_content() {
    let mut cb = Clipboard::with_text("old".to_string());
    let r = extract_selected_text(&mut cb, CopyOutcome::NoCopy);
    assert_eq!(r, Ok(String::new()));
    assert_eq!(cb.read_text(), Some("old".to_string()));
}

#[test]
fn copy_of_identical_value_keeps_it() {
    let mut cb = Clipboard::with_text("same".to_string());
    let r = extract_selected_text(&mut cb, CopyOutcome::Copied("same".to_string()));
    assert_eq!(r, Ok("same".to_string()));
    assert_eq!(cb.read_text(), Some("same".to_string()));
}

#[test]
fn new_content_is_kept_when_prior_was_empty() {
    let mut cb = Clipboard::empty();
    let r = extract_selected_text(&mut cb, CopyOutcome::Copied("new".to_string()));
    assert_eq!(r, Ok("new".to_string()));
    assert_eq!(cb.read_text(), Some("new".to_string()));
}

#[test]
fn non_empty_prior_content_is_written_back() {
    let mut cb = Clipboard::with_text("old".to_string());
    let r = extract_selected_text(&mut cb, CopyOutcome::Copied("fresh".to_string()));
    assert_eq!(r, Ok("fresh".to_string()));
    assert_eq!(cb.read_text(), Some("old".to_string()));
}

#[test]
fn rejected_injection_fails_and_restores() {
    let mut cb = Clipboard::with_text("old".to_string());
    let r = extract_selected_text(&mut cb, CopyOutcome::Rejected);
    assert_eq!(r, Err(ExtractionError::SimulationFailed));
    assert_eq!(cb.read_text(), Some("old".to_string()));
}

#[test]
fn rejected_injection_on_empty_clipboard_leaves_it_empty() {
    let mut cb = Clipboard::empty();
    let r = extract_selected_text(&mut cb, CopyOutcome::Rejected);
    assert_eq!(r, Err(ExtractionError::SimulationFailed));
    assert_eq!(cb.read_text(), None);
}

#[test]
fn empty_extraction_on_empty_clipboard_is_a_success() {
    let mut cb = Clipboard::empty();
    let r = extract_selected_text(&mut cb, CopyOutcome::NoCopy);
    assert_eq!(r, Ok(String::new()));
    assert_eq!(cb.read_text(), None);
}

#[test]
fn held_clipboard_is_unavailable() {
    let mut cb = Clipboard::held_elsewhere(Some("theirs".to_string()));
    let r = extract_selected_text(&mut cb, CopyOutcome::Copied("new".to_string()));
    assert_eq!(r, Err(ExtractionError::ClipboardUnavailable));
}

#[test]
fn restoration_decision_matches_the_protocol() {
    assert!(!should_restore(&String::new(), &String::new()));
    assert!(!should_restore(&String::new(), &"new".to_string()));
    assert!(!should_restore(&"same".to_string(), &"same".to_string()));
    assert!(should_restore(&"old".to_string(), &String::new()));
    assert!(should_restore(&"old".to_string(), &"new".to_string()));
}

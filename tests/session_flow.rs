use dictation_core::backend::{start_body, transcription_result, BackendError, TranscriptionResult};
use dictation_core::inject::{InjectAction, InjectEvent, InjectionError, Injector};
use dictation_core::session::{AppState, SessionAction, SessionEvent, SessionStatus};

fn units(text: &str) -> Vec<u16> {
    let mut v: Vec<u16> = text.encode_utf16().collect();
    v.push(0);
    v
}

/// Runs an injector against an in-memory clipboard; returns the outcome and
/// what each paste keystroke found on the clipboard.
fn run_injector(
    mut inj: Injector,
    clipboard: &mut Option<Vec<u16>>,
) -> (Result<(), InjectionError>, Vec<Option<Vec<u16>>>) {
    let mut pasted = Vec::new();
    let mut ev = InjectEvent::Begin;
    loop {
        match inj.step(ev) {
            InjectAction::ReadClipboard => ev = InjectEvent::ClipboardRead(clipboard.clone()),
            InjectAction::WriteClipboard(data) => {
                *clipboard = Some(data);
                ev = InjectEvent::Written(true);
            }
            InjectAction::Wait(_) => ev = InjectEvent::Waited,
            InjectAction::EmitPaste => {
                pasted.push(clipboard.clone());
                ev = InjectEvent::PasteSent(true);
            }
            InjectAction::Finish(r) => return (r, pasted),
        }
    }
}

fn recording_state() -> AppState {
    let mut st = AppState::default();
    let acts = st.handle(SessionEvent::Toggle);
    assert_eq!(acts.len(), 2);
    assert_eq!(st.status, SessionStatus::Recording);
    st
}

#[test]
fn defaults() {
    let st = AppState::default();
    assert_eq!(st.selected_model, "small");
    assert_eq!(st.selected_device, "auto");
    assert_eq!(st.get_microphone_device(), None);
    assert!(st.get_clipboard_paste());
    assert_eq!(st.get_language(), "en");
    assert_eq!(st.get_toggle_shortcut(), "F9");
    assert_eq!(st.status, SessionStatus::Idle);
}

#[test]
fn start_shows_overlay_before_backend_call() {
    let mut st = AppState::default();
    let acts = st.handle(SessionEvent::Toggle);
    assert_eq!(st.status, SessionStatus::Recording);
    assert_eq!(acts.len(), 2);
    assert!(matches!(acts[0], SessionAction::ShowOverlay));
    match &acts[1] {
        SessionAction::StartBackend(req) => assert_eq!(
            start_body(req),
            r#"{"model_size":"small","language":"en","device":"auto"}"#
        ),
        _ => panic!("expected a start request"),
    }
}

#[test]
fn start_uses_current_settings() {
    let mut st = AppState::default();
    st.set_model_and_device("medium".to_string(), "cuda".to_string());
    st.set_microphone_device(Some(1));
    st.set_language("auto".to_string());
    let acts = st.handle(SessionEvent::Toggle);
    match &acts[1] {
        SessionAction::StartBackend(req) => assert_eq!(
            start_body(req),
            r#"{"model_size":"medium","language":null,"device":"cuda","device_index":1}"#
        ),
        _ => panic!("expected a start request"),
    }
}

#[test]
fn cancel_while_recording_hides_overlay_and_injects_nothing() {
    let mut st = recording_state();
    let acts = st.handle(SessionEvent::Cancel);
    assert_eq!(st.status, SessionStatus::Idle);
    assert_eq!(acts.len(), 2);
    assert!(matches!(acts[0], SessionAction::CancelBackend));
    assert!(matches!(acts[1], SessionAction::HideOverlay));
    assert!(!acts.iter().any(|a| matches!(a, SessionAction::Inject(_))));
}

#[test]
fn cancel_while_idle_does_nothing() {
    let mut st = AppState::default();
    let acts = st.handle(SessionEvent::Cancel);
    assert!(acts.is_empty());
    assert_eq!(st.status, SessionStatus::Idle);
}

#[test]
fn stop_toggle_waits_for_backend() {
    let mut st = recording_state();
    let acts = st.handle(SessionEvent::Toggle);
    assert_eq!(st.status, SessionStatus::Stopping);
    assert_eq!(acts.len(), 3);
    assert!(matches!(acts[0], SessionAction::ShowProcessing));
    assert!(matches!(acts[1], SessionAction::Wait(100)));
    assert!(matches!(acts[2], SessionAction::StopBackend));
}

#[test]
fn triggers_are_ignored_while_stopping() {
    let mut st = recording_state();
    st.handle(SessionEvent::Toggle);
    assert!(st.handle(SessionEvent::Toggle).is_empty());
    assert!(st.handle(SessionEvent::Cancel).is_empty());
    assert_eq!(st.status, SessionStatus::Stopping);
}

#[test]
fn failed_stop_returns_to_idle_without_injection() {
    for err in [BackendError::Unreachable, BackendError::Rejected(503)] {
        let mut st = recording_state();
        st.handle(SessionEvent::Toggle);
        let acts = st.handle(SessionEvent::StopReplied(Err(err)));
        assert_eq!(st.status, SessionStatus::Idle);
        assert_eq!(acts.len(), 1);
        assert!(matches!(acts[0], SessionAction::HideOverlay));
    }
    let mut st = recording_state();
    st.handle(SessionEvent::Toggle);
    let acts = st.handle(SessionEvent::StopReplied(transcription_result(None, None)));
    assert_eq!(st.status, SessionStatus::Idle);
    assert_eq!(acts.len(), 1);
}

#[test]
fn empty_transcript_injects_nothing() {
    let mut st = recording_state();
    st.handle(SessionEvent::Toggle);
    let acts = st.handle(SessionEvent::StopReplied(Ok(TranscriptionResult { text: None })));
    assert_eq!(st.status, SessionStatus::Idle);
    assert_eq!(acts.len(), 1);
    assert!(matches!(acts[0], SessionAction::HideOverlay));
}

#[test]
fn stop_with_transcript_restores_previous_clipboard() {
    let mut st = AppState::default();
    st.set_clipboard_paste(false);
    st.handle(SessionEvent::Toggle);
    st.handle(SessionEvent::Toggle);
    let reply = transcription_result(Some(200), Some(r#"{"text":"hello world"}"#.to_string()));
    let acts = st.handle(SessionEvent::StopReplied(reply));
    assert_eq!(st.status, SessionStatus::Idle);
    assert_eq!(acts.len(), 3);
    assert!(matches!(acts[0], SessionAction::HideOverlay));
    assert!(matches!(acts[1], SessionAction::Wait(150)));
    let req = match &acts[2] {
        SessionAction::Inject(req) => req,
        _ => panic!("expected an injection"),
    };
    assert_eq!(req.text, "hello world");
    assert!(!req.preserve_clipboard);
    let mut clipboard = Some(units("previous"));
    let (outcome, pasted) = run_injector(Injector::new(req), &mut clipboard);
    assert_eq!(outcome, Ok(()));
    assert_eq!(clipboard, Some(units("previous")));
    assert_eq!(pasted, vec![Some(units("hello world"))]);
}

#[test]
fn stale_stop_reply_is_ignored() {
    let mut st = recording_state();
    let acts = st.handle(SessionEvent::StopReplied(Ok(TranscriptionResult {
        text: Some("late".to_string()),
    })));
    assert!(acts.is_empty());
    assert_eq!(st.status, SessionStatus::Recording);
}

#[test]
fn settings_are_kept_across_a_session() {
    let mut st = AppState::default();
    st.set_language("fr".to_string());
    st.handle(SessionEvent::Toggle);
    st.handle(SessionEvent::Cancel);
    assert_eq!(st.get_language(), "fr");
    assert_eq!(st.selected_model, "small");
}

#[test]
fn save_shortcuts_takes_toggle_entry() {
    let mut st = AppState::default();
    st.save_shortcuts(&vec![("cancel".to_string(), "Esc".to_string())]);
    assert_eq!(st.get_toggle_shortcut(), "F9");
    st.save_shortcuts(&vec![
        ("cancel".to_string(), "Esc".to_string()),
        ("toggle".to_string(), "Ctrl+Space".to_string()),
    ]);
    assert_eq!(st.get_toggle_shortcut(), "Ctrl+Space");
    st.save_shortcuts(&Vec::new());
    assert_eq!(st.get_toggle_shortcut(), "Ctrl+Space");
}

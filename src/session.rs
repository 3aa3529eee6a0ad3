//! The recording session controller: the session's settings and status, and
//! the decisions taken on each trigger. The caller performs the returned
//! actions in order; a stop request's reply comes back as an event.
use vstd::prelude::*;
use crate::backend::{start_request, start_request_of, BackendError, StartRequest, TranscriptionResult};
use crate::inject::{lemma_previous_text_restored, simulate, ActionModel, Desk, InjectionRequest};
use crate::utf16::clipboard_payload;

verus! {

/// Wait after showing the processing indicator, before asking the backend
/// to stop, so that the indicator gets drawn.
pub const PROCESSING_DELAY_MS: u64 = 100;

/// Wait after hiding the overlay, before injecting, so that input focus
/// returns to the application the user was typing into.
pub const FOCUS_RETURN_MS: u64 = 150;

/// Where the recording session stands.
#[derive(PartialEq, Eq, Structural, Clone, Copy, Debug)]
pub enum SessionStatus {
    Idle,
    Recording,
    /// A stop request is in flight; triggers are ignored until it answers.
    Stopping,
}

/// A trigger reaching the controller.
pub enum SessionEvent {
    /// The start/stop hotkey or menu item.
    Toggle,
    /// The cancel hotkey.
    Cancel,
    /// The backend answered the stop request, or failed to.
    StopReplied(Result<TranscriptionResult, BackendError>),
}

/// A step for the caller to perform.
pub enum SessionAction {
    /// Position the recording overlay, show it, and play the start sound.
    ShowOverlay,
    /// Send this start request to the backend, without waiting for it.
    StartBackend(StartRequest),
    /// Show the processing indicator on the overlay and play the stop sound.
    ShowProcessing,
    /// Wait this many milliseconds.
    Wait(u64),
    /// Send a stop request and report its reply as `StopReplied`.
    StopBackend,
    /// Send a cancel request to the backend, without waiting for it.
    CancelBackend,
    /// Hide the recording overlay.
    HideOverlay,
    /// Inject this text into the focused application.
    Inject(InjectionRequest),
}

/// The session's settings and status.
pub struct AppState {
    pub selected_model: String,
    pub selected_device: String,
    /// Microphone device index; `None` uses the default device.
    pub selected_microphone: Option<i32>,
    /// Leave injected text on the clipboard; when false the previous
    /// clipboard text is restored after each injection.
    pub use_clipboard: bool,
    /// Language code, or "auto" for detection by the backend.
    pub selected_language: String,
    pub toggle_shortcut: String,
    /// Where the session stands; moved on by `handle` alone.
    pub status: SessionStatus,
}

/// The status after an event.
pub open spec fn next_status(s: SessionStatus, e: SessionEvent) -> SessionStatus {
    match (s, e) {
        (SessionStatus::Idle, SessionEvent::Toggle) => SessionStatus::Recording,
        (SessionStatus::Recording, SessionEvent::Toggle) => SessionStatus::Stopping,
        (SessionStatus::Recording, SessionEvent::Cancel) => SessionStatus::Idle,
        (SessionStatus::Stopping, SessionEvent::StopReplied(_)) => SessionStatus::Idle,
        _ => s,
    }
}

/// The actions taken on an event, given the settings and status before it.
pub open spec fn reaction(st: AppState, e: SessionEvent) -> Seq<SessionAction> {
    match (st.status, e) {
        (SessionStatus::Idle, SessionEvent::Toggle) => seq![
            SessionAction::ShowOverlay,
            SessionAction::StartBackend(
                start_request_of(
                    st.selected_model,
                    st.selected_device,
                    st.selected_microphone,
                    st.selected_language,
                ),
            ),
        ],
        (SessionStatus::Recording, SessionEvent::Toggle) => seq![
            SessionAction::ShowProcessing,
            SessionAction::Wait(PROCESSING_DELAY_MS),
            SessionAction::StopBackend,
        ],
        (SessionStatus::Recording, SessionEvent::Cancel) => seq![
            SessionAction::CancelBackend,
            SessionAction::HideOverlay,
        ],
        (SessionStatus::Stopping, SessionEvent::StopReplied(r)) => match r {
            Ok(TranscriptionResult { text: Some(t) }) => seq![
                SessionAction::HideOverlay,
                SessionAction::Wait(FOCUS_RETURN_MS),
                SessionAction::Inject(
                    InjectionRequest { text: t, preserve_clipboard: st.use_clipboard },
                ),
            ],
            _ => seq![SessionAction::HideOverlay],
        },
        _ => seq![],
    }
}

/// Whether two states hold the same settings.
pub open spec fn same_settings(a: AppState, b: AppState) -> bool {
    &&& a.selected_model == b.selected_model
    &&& a.selected_device == b.selected_device
    &&& a.selected_microphone == b.selected_microphone
    &&& a.use_clipboard == b.use_clipboard
    &&& a.selected_language == b.selected_language
    &&& a.toggle_shortcut == b.toggle_shortcut
}

/// Whether a list of actions injects nothing.
pub open spec fn injects_nothing(acts: Seq<SessionAction>) -> bool {
    forall|i: int| 0 <= i < acts.len() ==> !(#[trigger] acts[i] is Inject)
}

/// The session's transitions. From `Idle` a toggle, and nothing else,
/// starts a recording. From `Recording` a cancel returns to `Idle` at once,
/// and a toggle asks the backend to stop, which returns to `Idle` on any
/// reply. Every event leaves one of the three statuses.
pub proof fn lemma_transitions(
    e: SessionEvent,
    reply: Result<TranscriptionResult, BackendError>,
)
    ensures
        (next_status(SessionStatus::Idle, e) == SessionStatus::Recording) <==> e is Toggle,
        next_status(SessionStatus::Idle, e) == SessionStatus::Recording || next_status(
            SessionStatus::Idle,
            e,
        ) == SessionStatus::Idle,
        next_status(SessionStatus::Recording, SessionEvent::Cancel) == SessionStatus::Idle,
        next_status(
            next_status(SessionStatus::Recording, SessionEvent::Toggle),
            SessionEvent::StopReplied(reply),
        ) == SessionStatus::Idle,
        next_status(SessionStatus::Stopping, SessionEvent::Toggle) == SessionStatus::Stopping,
{
}

/// A stop whose backend call fails returns the session to `Idle`, hides the
/// overlay and injects nothing.
pub proof fn lemma_failed_stop(st: AppState, err: BackendError)
    requires
        st.status == SessionStatus::Recording,
    ensures
        next_status(st.status, SessionEvent::Toggle) == SessionStatus::Stopping,
        injects_nothing(reaction(st, SessionEvent::Toggle)),
        next_status(SessionStatus::Stopping, SessionEvent::StopReplied(Err(err)))
            == SessionStatus::Idle,
        reaction(
            AppState { status: SessionStatus::Stopping, ..st },
            SessionEvent::StopReplied(Err(err)),
        ) == seq![SessionAction::HideOverlay],
{
}

/// A cancel while recording hides the overlay at once, asks the backend to
/// discard the recording, injects nothing and returns to `Idle`.
pub proof fn lemma_cancel(st: AppState)
    requires
        st.status == SessionStatus::Recording,
    ensures
        next_status(st.status, SessionEvent::Cancel) == SessionStatus::Idle,
        reaction(st, SessionEvent::Cancel) == seq![
            SessionAction::CancelBackend,
            SessionAction::HideOverlay,
        ],
        injects_nothing(reaction(st, SessionEvent::Cancel)),
{
}

/// A stop whose reply carries a transcript, with the clipboard to be
/// preserved, hides the overlay, waits for focus to return and injects the
/// transcript; that injection pastes the transcript once and leaves the
/// previous clipboard text in place.
pub proof fn lemma_stop_injects_and_restores(st: AppState, text: String, previous: Seq<u16>)
    requires
        st.status == SessionStatus::Stopping,
        !st.use_clipboard,
    ensures
        next_status(st.status, SessionEvent::StopReplied(Ok(TranscriptionResult { text: Some(text) })))
            == SessionStatus::Idle,
        reaction(st, SessionEvent::StopReplied(Ok(TranscriptionResult { text: Some(text) }))) == seq![
            SessionAction::HideOverlay,
            SessionAction::Wait(FOCUS_RETURN_MS),
            SessionAction::Inject(InjectionRequest { text, preserve_clipboard: false }),
        ],
        simulate(text@, false, Some(previous), true) == (
            ActionModel::Finish(Ok(())),
            Desk { clipboard: Some(previous), pasted: seq![Some(clipboard_payload(text@))] },
        ),
{
    lemma_previous_text_restored(text@, Some(previous));
}

/// The value of the first entry keyed "toggle", if any.
pub open spec fn toggle_binding(entries: Seq<(String, String)>) -> Option<String>
    decreases entries.len(),
{
    if entries.len() == 0 {
        None
    } else if entries[0].0@ == "toggle"@ {
        Some(entries[0].1)
    } else {
        toggle_binding(entries.drop_first())
    }
}

impl Default for AppState {
    /// The settings at start: model "small", device "auto", the default
    /// microphone, text kept on the clipboard, English, F9; no session.
    fn default() -> (r: AppState)
        ensures
            r.selected_model@ == "small"@,
            r.selected_device@ == "auto"@,
            r.selected_microphone is None,
            r.use_clipboard,
            r.selected_language@ == "en"@,
            r.toggle_shortcut@ == "F9"@,
            r.status == SessionStatus::Idle,
    {
        AppState {
            selected_model: String::from_str("small"),
            selected_device: String::from_str("auto"),
            selected_microphone: None,
            use_clipboard: true,
            selected_language: String::from_str("en"),
            toggle_shortcut: String::from_str("F9"),
            status: SessionStatus::Idle,
        }
    }
}

impl AppState {
    /// Sets the transcription model and the compute device.
    pub fn set_model_and_device(&mut self, model: String, device: String)
        ensures
            *final(self) == (AppState {
                selected_model: model,
                selected_device: device,
                ..*old(self)
            }),
    {
        self.selected_model = model;
        self.selected_device = device;
    }

    /// Selects a microphone by index, or the default one with `None`.
    pub fn set_microphone_device(&mut self, device_index: Option<i32>)
        ensures
            *final(self) == (AppState { selected_microphone: device_index, ..*old(self) }),
    {
        self.selected_microphone = device_index;
    }

    /// The selected microphone's index.
    pub fn get_microphone_device(&self) -> (r: Option<i32>)
        ensures
            r == self.selected_microphone,
    {
        self.selected_microphone
    }

    /// Sets whether injected text stays on the clipboard.
    pub fn set_clipboard_paste(&mut self, enabled: bool)
        ensures
            *final(self) == (AppState { use_clipboard: enabled, ..*old(self) }),
    {
        self.use_clipboard = enabled;
    }

    /// Whether injected text stays on the clipboard.
    pub fn get_clipboard_paste(&self) -> (r: bool)
        ensures
            r == self.use_clipboard,
    {
        self.use_clipboard
    }

    /// Sets the language code ("auto" for detection).
    pub fn set_language(&mut self, language: String)
        ensures
            *final(self) == (AppState { selected_language: language, ..*old(self) }),
    {
        self.selected_language = language;
    }

    /// The language code.
    pub fn get_language(&self) -> (r: String)
        ensures
            r == self.selected_language,
    {
        self.selected_language.clone()
    }

    /// Takes the toggle binding from a set of shortcut entries, keyed by
    /// action name; without a "toggle" entry the binding stays as it is.
    pub fn save_shortcuts(&mut self, shortcuts: &Vec<(String, String)>)
        ensures
            *final(self) == (AppState {
                toggle_shortcut: match toggle_binding(shortcuts@) {
                    Some(t) => t,
                    None => old(self).toggle_shortcut,
                },
                ..*old(self)
            }),
    {
        let key = String::from_str("toggle");
        let mut i: usize = 0;
        assert(shortcuts@.subrange(0, shortcuts@.len() as int) =~= shortcuts@);
        while i < shortcuts.len()
            invariant
                *self == *old(self),
                i <= shortcuts.len(),
                key@ == "toggle"@,
                toggle_binding(shortcuts@) == toggle_binding(shortcuts@.subrange(i as int, shortcuts@.len() as int)),
            decreases shortcuts.len() - i,
        {
            let ghost rest = shortcuts@.subrange(i as int, shortcuts@.len() as int);
            assert(rest[0] == shortcuts@[i as int]);
            if shortcuts[i].0 == key {
                self.toggle_shortcut = shortcuts[i].1.clone();
                return;
            }
            assert(rest.drop_first() =~= shortcuts@.subrange(i + 1, shortcuts@.len() as int));
            i = i + 1;
        }
        assert(shortcuts@.subrange(i as int, shortcuts@.len() as int).len() == 0);
    }

    /// The toggle binding.
    pub fn get_toggle_shortcut(&self) -> (r: String)
        ensures
            r == self.toggle_shortcut,
    {
        self.toggle_shortcut.clone()
    }

    /// Takes a trigger, moves the session on and returns what to do, in
    /// order. The settings are left as they are.
    pub fn handle(&mut self, e: SessionEvent) -> (r: Vec<SessionAction>)
        ensures
            final(self).status == next_status(old(self).status, e),
            same_settings(*final(self), *old(self)),
            r@ == reaction(*old(self), e),
    {
        let ghost e0 = e;
        let mut out: Vec<SessionAction> = Vec::new();
        match (self.status, e) {
            (SessionStatus::Idle, SessionEvent::Toggle) => {
                out.push(SessionAction::ShowOverlay);
                let req = start_request(
                    &self.selected_model,
                    &self.selected_device,
                    self.selected_microphone,
                    &self.selected_language,
                );
                out.push(SessionAction::StartBackend(req));
                self.status = SessionStatus::Recording;
            },
            (SessionStatus::Recording, SessionEvent::Toggle) => {
                out.push(SessionAction::ShowProcessing);
                out.push(SessionAction::Wait(PROCESSING_DELAY_MS));
                out.push(SessionAction::StopBackend);
                self.status = SessionStatus::Stopping;
            },
            (SessionStatus::Recording, SessionEvent::Cancel) => {
                out.push(SessionAction::CancelBackend);
                out.push(SessionAction::HideOverlay);
                self.status = SessionStatus::Idle;
            },
            (SessionStatus::Stopping, SessionEvent::StopReplied(r)) => {
                out.push(SessionAction::HideOverlay);
                match r {
                    Ok(TranscriptionResult { text: Some(t) }) => {
                        out.push(SessionAction::Wait(FOCUS_RETURN_MS));
                        out.push(
                            SessionAction::Inject(
                                InjectionRequest { text: t, preserve_clipboard: self.use_clipboard },
                            ),
                        );
                    },
                    _ => {},
                }
                self.status = SessionStatus::Idle;
            },
            _ => {},
        }
        proof {
            assert(out@ =~= reaction(*old(self), e0));
        }
        out
    }
}

} // verus!

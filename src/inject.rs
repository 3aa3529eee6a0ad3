//! Text injection through the clipboard: the text is written to the
//! clipboard and pasted into the focused application with a synthetic paste
//! keystroke. Unless the text is to stay on the clipboard, the previous
//! clipboard text is saved first and written back afterwards.
//!
//! The injector decides; its driver performs each action it returns against
//! the operating system and feeds back what happened as the next event.
use vstd::prelude::*;
use crate::utf16::{clipboard_payload, encode_payload};

verus! {

/// Wait after writing the clipboard, before the paste keystroke reads it.
pub const CLIPBOARD_SETTLE_MS: u64 = 10;

/// Wait after the paste keystroke, before the saved text is written back.
pub const RESTORE_DELAY_MS: u64 = 50;

/// A text to inject into the focused application.
pub struct InjectionRequest {
    pub text: String,
    /// Leave the text on the clipboard afterwards; when false, the previous
    /// clipboard text is put back.
    pub preserve_clipboard: bool,
}

/// Why an injection did not complete.
#[derive(PartialEq, Eq, Structural, Clone, Copy, Debug)]
pub enum InjectionError {
    /// The text could not be written to the clipboard; nothing was pasted.
    ClipboardWriteFailed,
    /// The synthetic paste keystroke could not be sent.
    InputEmitFailed,
}

/// Where an injection stands: what it waits for next.
#[derive(PartialEq, Eq, Structural, Clone, Copy, Debug)]
pub enum Phase {
    /// Not started.
    Begin,
    /// Waits for the previous clipboard text.
    Saving,
    /// Waits for the outcome of writing the text.
    Writing,
    /// Waits for the clipboard to settle.
    Settling,
    /// Waits for the outcome of the paste keystroke.
    Pasting,
    /// Waits for the paste to complete before restoring.
    Lingering,
    /// Waits for the outcome of writing back the saved text.
    Restoring,
    /// Finished.
    Done,
}

/// What the driver is to do next.
pub enum InjectAction {
    /// Read the clipboard's text.
    ReadClipboard,
    /// Replace the clipboard's content with these UTF-16 units.
    WriteClipboard(Vec<u16>),
    /// Wait this many milliseconds.
    Wait(u64),
    /// Send the paste keystroke to the focused window.
    EmitPaste,
    /// The injection is over, with this outcome.
    Finish(Result<(), InjectionError>),
}

/// What happened when the driver performed the last action.
pub enum InjectEvent {
    /// Starts the injection.
    Begin,
    /// The clipboard's text, `None` when it held none or could not be read.
    ClipboardRead(Option<Vec<u16>>),
    /// Whether the clipboard write succeeded.
    Written(bool),
    /// The wait is over.
    Waited,
    /// Whether the paste keystroke was sent.
    PasteSent(bool),
}

/// Model of an action.
pub enum ActionModel {
    ReadClipboard,
    WriteClipboard(Seq<u16>),
    Wait(u64),
    EmitPaste,
    Finish(Result<(), InjectionError>),
}

/// Model of an event.
pub enum EventModel {
    Begin,
    ClipboardRead(Option<Seq<u16>>),
    Written(bool),
    Waited,
    PasteSent(bool),
}

impl View for InjectAction {
    type V = ActionModel;

    open spec fn view(&self) -> ActionModel {
        match self {
            InjectAction::ReadClipboard => ActionModel::ReadClipboard,
            InjectAction::WriteClipboard(d) => ActionModel::WriteClipboard(d@),
            InjectAction::Wait(ms) => ActionModel::Wait(*ms),
            InjectAction::EmitPaste => ActionModel::EmitPaste,
            InjectAction::Finish(r) => ActionModel::Finish(*r),
        }
    }
}

impl View for InjectEvent {
    type V = EventModel;

    open spec fn view(&self) -> EventModel {
        match self {
            InjectEvent::Begin => EventModel::Begin,
            InjectEvent::ClipboardRead(c) => EventModel::ClipboardRead(
                match c {
                    Some(d) => Some(d@),
                    None => None,
                },
            ),
            InjectEvent::Written(ok) => EventModel::Written(*ok),
            InjectEvent::Waited => EventModel::Waited,
            InjectEvent::PasteSent(ok) => EventModel::PasteSent(*ok),
        }
    }
}

/// Model of an injector.
pub struct InjectorModel {
    /// The zero-terminated UTF-16 text to paste.
    pub payload: Seq<u16>,
    /// Whether the text stays on the clipboard.
    pub keep: bool,
    /// The clipboard text saved before writing, if any.
    pub snapshot: Option<Seq<u16>>,
    /// Whether the paste keystroke was sent.
    pub paste_ok: bool,
    pub phase: Phase,
}

/// One injection in progress.
pub struct Injector {
    payload: Vec<u16>,
    keep: bool,
    snapshot: Option<Vec<u16>>,
    paste_ok: bool,
    phase: Phase,
}

impl View for Injector {
    type V = InjectorModel;

    closed spec fn view(&self) -> InjectorModel {
        InjectorModel {
            payload: self.payload@,
            keep: self.keep,
            snapshot: match self.snapshot {
                Some(d) => Some(d@),
                None => None,
            },
            paste_ok: self.paste_ok,
            phase: self.phase,
        }
    }
}

/// The injector for a request, not yet started.
pub open spec fn initial(text: Seq<char>, preserve_clipboard: bool) -> InjectorModel {
    InjectorModel {
        payload: clipboard_payload(text),
        keep: preserve_clipboard,
        snapshot: None,
        paste_ok: false,
        phase: Phase::Begin,
    }
}

/// Whether the injector waits for this event.
pub open spec fn accepts(s: InjectorModel, e: EventModel) -> bool {
    match (s.phase, e) {
        (Phase::Begin, EventModel::Begin) => true,
        (Phase::Saving, EventModel::ClipboardRead(_)) => true,
        (Phase::Writing, EventModel::Written(_)) => true,
        (Phase::Settling, EventModel::Waited) => true,
        (Phase::Pasting, EventModel::PasteSent(_)) => true,
        (Phase::Lingering, EventModel::Waited) => true,
        (Phase::Restoring, EventModel::Written(_)) => true,
        _ => false,
    }
}

/// What every reachable injector state satisfies: a write-back is pending
/// only when a text was saved.
pub open spec fn well_formed(s: InjectorModel) -> bool {
    (s.phase == Phase::Lingering || s.phase == Phase::Restoring) ==> s.snapshot is Some
}

/// The outcome of an injection whose paste keystroke was or was not sent.
pub open spec fn paste_outcome(paste_ok: bool) -> Result<(), InjectionError> {
    if paste_ok {
        Ok(())
    } else {
        Err(InjectionError::InputEmitFailed)
    }
}

/// One step of an injection: the next state and action for an accepted
/// event. A failed clipboard write ends the injection before any keystroke;
/// a failed write-back is no error, since the text was already pasted.
pub open spec fn next(s: InjectorModel, e: EventModel) -> (InjectorModel, ActionModel) {
    match e {
        EventModel::Begin => if s.keep {
            (InjectorModel { phase: Phase::Writing, ..s }, ActionModel::WriteClipboard(s.payload))
        } else {
            (InjectorModel { phase: Phase::Saving, ..s }, ActionModel::ReadClipboard)
        },
        EventModel::ClipboardRead(c) => (
            InjectorModel { snapshot: c, phase: Phase::Writing, ..s },
            ActionModel::WriteClipboard(s.payload),
        ),
        EventModel::Written(ok) => if s.phase == Phase::Writing {
            if ok {
                (InjectorModel { phase: Phase::Settling, ..s }, ActionModel::Wait(CLIPBOARD_SETTLE_MS))
            } else {
                (
                    InjectorModel { phase: Phase::Done, ..s },
                    ActionModel::Finish(Err(InjectionError::ClipboardWriteFailed)),
                )
            }
        } else {
            (InjectorModel { phase: Phase::Done, ..s }, ActionModel::Finish(paste_outcome(s.paste_ok)))
        },
        EventModel::Waited => if s.phase == Phase::Settling {
            (InjectorModel { phase: Phase::Pasting, ..s }, ActionModel::EmitPaste)
        } else {
            (
                InjectorModel { phase: Phase::Restoring, ..s },
                ActionModel::WriteClipboard(s.snapshot->Some_0),
            )
        },
        EventModel::PasteSent(ok) => if !s.keep && s.snapshot is Some {
            (InjectorModel { paste_ok: ok, phase: Phase::Lingering, ..s }, ActionModel::Wait(RESTORE_DELAY_MS))
        } else {
            (InjectorModel { paste_ok: ok, phase: Phase::Done, ..s }, ActionModel::Finish(paste_outcome(ok)))
        },
    }
}

/// The clipboard as an injection sees it, and what each paste keystroke
/// found on it.
pub struct Desk {
    pub clipboard: Option<Seq<u16>>,
    pub pasted: Seq<Option<Seq<u16>>>,
}

/// How the system answers an action: a read returns the clipboard's text; a
/// write replaces it when `writes_ok` holds and otherwise fails and leaves it
/// as it was; a wait ends; a paste keystroke is sent and takes what the
/// clipboard holds.
pub open spec fn respond(d: Desk, a: ActionModel, writes_ok: bool) -> (Desk, EventModel) {
    match a {
        ActionModel::ReadClipboard => (d, EventModel::ClipboardRead(d.clipboard)),
        ActionModel::WriteClipboard(data) => if writes_ok {
            (Desk { clipboard: Some(data), ..d }, EventModel::Written(true))
        } else {
            (d, EventModel::Written(false))
        },
        ActionModel::EmitPaste => (
            Desk { pasted: d.pasted.push(d.clipboard), ..d },
            EventModel::PasteSent(true),
        ),
        _ => (d, EventModel::Waited),
    }
}

/// Runs an injection against `respond` for at most `fuel` actions, until it
/// finishes: the final state, its last action and the desk.
pub open spec fn run(s: InjectorModel, a: ActionModel, d: Desk, writes_ok: bool, fuel: nat) -> (
    InjectorModel,
    ActionModel,
    Desk,
)
    decreases fuel,
{
    if fuel == 0 || a is Finish {
        (s, a, d)
    } else {
        let (d2, e) = respond(d, a, writes_ok);
        let (s2, a2) = next(s, e);
        run(s2, a2, d2, writes_ok, (fuel - 1) as nat)
    }
}

/// A whole injection of `text` onto a clipboard holding `clipboard`: its
/// last action and the desk afterwards.
pub open spec fn simulate(
    text: Seq<char>,
    preserve_clipboard: bool,
    clipboard: Option<Seq<u16>>,
    writes_ok: bool,
) -> (ActionModel, Desk) {
    let (s1, a1) = next(initial(text, preserve_clipboard), EventModel::Begin);
    let (_s, a, d) = run(s1, a1, Desk { clipboard, pasted: seq![] }, writes_ok, 8);
    (a, d)
}

/// When the text is to stay on the clipboard, a successful injection leaves
/// the clipboard holding the text, which was pasted once.
pub proof fn lemma_kept_text_stays(text: Seq<char>, clipboard: Option<Seq<u16>>)
    ensures
        simulate(text, true, clipboard, true) == (
            ActionModel::Finish(Ok(())),
            Desk { clipboard: Some(clipboard_payload(text)), pasted: seq![Some(clipboard_payload(text))] },
        ),
{
    reveal_with_fuel(run, 9);
}

/// When the clipboard is to be preserved, a successful injection pastes the
/// text once and puts the previous clipboard text back. If the clipboard
/// held no text before, nothing is written back and no error is raised.
pub proof fn lemma_previous_text_restored(text: Seq<char>, clipboard: Option<Seq<u16>>)
    ensures
        simulate(text, false, clipboard, true) == (
            ActionModel::Finish(Ok(())),
            Desk {
                clipboard: match clipboard {
                    Some(c) => Some(c),
                    None => Some(clipboard_payload(text)),
                },
                pasted: seq![Some(clipboard_payload(text))],
            },
        ),
{
    reveal_with_fuel(run, 9);
}

/// When the text cannot be written to the clipboard, the injection fails
/// with `ClipboardWriteFailed` and no paste keystroke is ever sent.
pub proof fn lemma_failed_write_pastes_nothing(
    text: Seq<char>,
    preserve_clipboard: bool,
    clipboard: Option<Seq<u16>>,
)
    ensures
        simulate(text, preserve_clipboard, clipboard, false) == (
            ActionModel::Finish(Err(InjectionError::ClipboardWriteFailed)),
            Desk { clipboard, pasted: seq![] },
        ),
{
    reveal_with_fuel(run, 9);
}

fn copy_units(v: &Vec<u16>) -> (r: Vec<u16>)
    ensures
        r@ == v@,
{
    let mut r: Vec<u16> = Vec::new();
    let mut i: usize = 0;
    while i < v.len()
        invariant
            i <= v.len(),
            r@ == v@.subrange(0, i as int),
        decreases v.len() - i,
    {
        r.push(v[i]);
        i = i + 1;
    }
    assert(r@ =~= v@);
    r
}

impl Injector {
    #[verifier::type_invariant]
    spec fn reachable(self) -> bool {
        well_formed(self@)
    }

    /// An injector for `req`, not yet started.
    pub fn new(req: &InjectionRequest) -> (r: Injector)
        ensures
            r@ == initial(req.text@, req.preserve_clipboard),
    {
        Injector {
            payload: encode_payload(req.text.as_str()),
            keep: req.preserve_clipboard,
            snapshot: None,
            paste_ok: false,
            phase: Phase::Begin,
        }
    }

    /// Where the injection stands.
    pub fn phase(&self) -> (r: Phase)
        ensures
            r == self@.phase,
    {
        self.phase
    }

    /// Whether the injector waits for `e`.
    pub fn accepts(&self, e: &InjectEvent) -> (r: bool)
        ensures
            r == accepts(self@, e@),
    {
        match (self.phase, e) {
            (Phase::Begin, InjectEvent::Begin) => true,
            (Phase::Saving, InjectEvent::ClipboardRead(_)) => true,
            (Phase::Writing, InjectEvent::Written(_)) => true,
            (Phase::Settling, InjectEvent::Waited) => true,
            (Phase::Pasting, InjectEvent::PasteSent(_)) => true,
            (Phase::Lingering, InjectEvent::Waited) => true,
            (Phase::Restoring, InjectEvent::Written(_)) => true,
            _ => false,
        }
    }

    /// Takes the outcome of the last action and returns the next one.
    pub fn step(&mut self, e: InjectEvent) -> (r: InjectAction)
        requires
            accepts(old(self)@, e@),
        ensures
            (final(self)@, r@) == next(old(self)@, e@),
    {
        proof {
            use_type_invariant(&*self);
        }
        match e {
            InjectEvent::Begin => {
                if self.keep {
                    self.phase = Phase::Writing;
                    InjectAction::WriteClipboard(copy_units(&self.payload))
                } else {
                    self.phase = Phase::Saving;
                    InjectAction::ReadClipboard
                }
            },
            InjectEvent::ClipboardRead(c) => {
                self.snapshot = c;
                self.phase = Phase::Writing;
                InjectAction::WriteClipboard(copy_units(&self.payload))
            },
            InjectEvent::Written(ok) => {
                if self.phase == Phase::Writing {
                    if ok {
                        self.phase = Phase::Settling;
                        InjectAction::Wait(CLIPBOARD_SETTLE_MS)
                    } else {
                        self.phase = Phase::Done;
                        InjectAction::Finish(Err(InjectionError::ClipboardWriteFailed))
                    }
                } else {
                    self.phase = Phase::Done;
                    InjectAction::Finish(
                        if self.paste_ok {
                            Ok(())
                        } else {
                            Err(InjectionError::InputEmitFailed)
                        },
                    )
                }
            },
            InjectEvent::Waited => {
                if self.phase == Phase::Settling {
                    self.phase = Phase::Pasting;
                    InjectAction::EmitPaste
                } else {
                    self.phase = Phase::Restoring;
                    match &self.snapshot {
                        Some(d) => InjectAction::WriteClipboard(copy_units(d)),
                        None => InjectAction::WriteClipboard(Vec::new()),
                    }
                }
            },
            InjectEvent::PasteSent(ok) => {
                self.paste_ok = ok;
                if !self.keep && self.snapshot.is_some() {
                    self.phase = Phase::Lingering;
                    InjectAction::Wait(RESTORE_DELAY_MS)
                } else {
                    self.phase = Phase::Done;
                    InjectAction::Finish(
                        if ok {
                            Ok(())
                        } else {
                            Err(InjectionError::InputEmitFailed)
                        },
                    )
                }
            },
        }
    }
}

} // verus!

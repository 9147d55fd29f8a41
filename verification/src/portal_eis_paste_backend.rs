//! Direct paste on Wayland through the RemoteDesktop portal and libei: the
//! health of the session, the reconnect back-off, the keyboard emulation
//! state that EIS events drive, the Ctrl+V key frames, and where the portal's
//! restore token is kept.
use vstd::prelude::*;

use crate::paste_backend::{PasteCapability, PasteError};
use crate::text::{append_str, chars_to_string, path_join, path_push, str_chars, trim, trim_chars};

verus! {

/// Linux evdev keycode for Left Control.
pub const KEY_LEFTCTRL: u32 = 29;

/// Linux evdev keycode for 'V'.
pub const KEY_V: u32 = 47;

/// The name the daemon gives itself to EIS.
pub const EIS_CLIENT_NAME: &'static str = "Pookie Paste";

/// The file under the state directory that keeps the portal's restore token.
pub const RESTORE_TOKEN_FILE: &'static str = "remote-desktop.restore-token";

/// The health of the Portal/EIS session, shared with the paste requests.
#[derive(Debug, Clone, Copy, PartialEq, Eq, Structural)]
pub enum PortalEisHealth {
    Ready,
    Paused,
    Recovering,
    Failed,
}

/// The number a health is stored as.
pub open spec fn health_code(h: PortalEisHealth) -> u8 {
    match h {
        PortalEisHealth::Ready => 1,
        PortalEisHealth::Paused => 2,
        PortalEisHealth::Recovering => 3,
        PortalEisHealth::Failed => 4,
    }
}

/// The health a stored number stands for; any unknown number is a failed session.
pub open spec fn health_of_code(value: u8) -> PortalEisHealth {
    if value == 1 {
        PortalEisHealth::Ready
    } else if value == 2 {
        PortalEisHealth::Paused
    } else if value == 3 {
        PortalEisHealth::Recovering
    } else {
        PortalEisHealth::Failed
    }
}

impl PortalEisHealth {
    /// Reads a stored health.
    pub fn from_atomic(value: u8) -> (r: Self)
        ensures
            r == health_of_code(value),
    {
        match value {
            1 => PortalEisHealth::Ready,
            2 => PortalEisHealth::Paused,
            3 => PortalEisHealth::Recovering,
            _ => PortalEisHealth::Failed,
        }
    }

    pub fn to_atomic(self) -> (r: u8)
        ensures
            r == health_code(self),
    {
        match self {
            PortalEisHealth::Ready => 1,
            PortalEisHealth::Paused => 2,
            PortalEisHealth::Recovering => 3,
            PortalEisHealth::Failed => 4,
        }
    }
}

/// Storing a health and reading it back gives the same health.
pub proof fn lemma_health_round_trip(h: PortalEisHealth)
    ensures
        health_of_code(health_code(h)) == h,
{
}

pub open spec fn health_capability_spec(h: PortalEisHealth) -> PasteCapability {
    match h {
        PortalEisHealth::Ready => PasteCapability::Direct,
        _ => PasteCapability::ClipboardOnly,
    }
}

/// Only a ready session pastes directly.
pub fn health_capability(health: PortalEisHealth) -> (r: PasteCapability)
    ensures
        r == health_capability_spec(health),
{
    match health {
        PortalEisHealth::Ready => PasteCapability::Direct,
        PortalEisHealth::Paused | PortalEisHealth::Recovering | PortalEisHealth::Failed => {
            PasteCapability::ClipboardOnly
        },
    }
}

/// A paste request is only forwarded when the session pastes directly.
pub fn paste_gate(capability: PasteCapability) -> (r: Result<(), PasteError>)
    ensures
        capability == PasteCapability::Direct ==> r is Ok,
        capability != PasteCapability::Direct ==> r matches Err(PasteError::Unavailable),
{
    if capability != PasteCapability::Direct {
        Err(PasteError::Unavailable)
    } else {
        Ok(())
    }
}

/// The reconnect delays in seconds.
pub open spec fn reconnect_delays_spec() -> Seq<u64> {
    seq![1u64, 2u64, 5u64, 10u64]
}

pub fn reconnect_delays() -> (r: [u64; 4])
    ensures
        r@ == reconnect_delays_spec(),
{
    let r = [1u64, 2u64, 5u64, 10u64];
    assert(r@ =~= reconnect_delays_spec());
    r
}

/// The delay before reconnect attempt `retry_index`: the last delay repeats.
pub open spec fn reconnect_delay_spec(retry_index: nat) -> u64 {
    reconnect_delays_spec()[if retry_index < 3 {
        retry_index as int
    } else {
        3
    }]
}

pub fn reconnect_delay_secs(retry_index: usize) -> (r: u64)
    ensures
        r == reconnect_delay_spec(retry_index as nat),
{
    let delays = reconnect_delays();
    let i = if retry_index < 3 {
        retry_index
    } else {
        3
    };
    delays[i]
}

/// The back-off never shrinks and never exceeds ten seconds.
pub proof fn lemma_backoff_bounded_and_monotone(i: nat, j: nat)
    requires
        i <= j,
    ensures
        1 <= reconnect_delay_spec(i) <= reconnect_delay_spec(j) <= 10,
{
}

/// The retry index after a failed reconnect.
pub fn next_retry_index(retry_index: usize) -> (r: usize)
    ensures
        r == if retry_index < usize::MAX {
            retry_index + 1
        } else {
            retry_index as int
        },
{
    retry_index.saturating_add(1)
}

/// What a session event asks of the worker.
#[derive(Debug, Clone, Copy, PartialEq, Eq, Structural)]
pub enum EventOutcome {
    Continue,
    Reconnect,
}

/// The emulation state of the keyboard device that EIS gave the session.
pub struct EisEmulation {
    pub resumed: bool,
    pub emulating: bool,
    pub next_sequence: u32,
}

impl EisEmulation {
    /// Well formed: emulation sequences are never zero.
    pub open spec fn wf(&self) -> bool {
        self.next_sequence != 0
    }

    /// The state once the session started emulating with sequence 1.
    pub fn started() -> (r: Self)
        ensures
            r.wf(),
            r.resumed,
            r.emulating,
            r.next_sequence == 2,
    {
        EisEmulation { resumed: true, emulating: true, next_sequence: 2 }
    }

    /// Hands out the next emulation sequence; the counter wraps but skips zero.
    pub fn take_next_sequence(&mut self) -> (r: u32)
        requires
            old(self).wf(),
        ensures
            final(self).wf(),
            r == old(self).next_sequence,
            r != 0,
            final(self).next_sequence == if old(self).next_sequence == u32::MAX {
                1
            } else {
                old(self).next_sequence + 1
            },
            final(self).resumed == old(self).resumed,
            final(self).emulating == old(self).emulating,
    {
        let sequence = self.next_sequence;
        self.next_sequence = self.next_sequence.wrapping_add(1);
        if self.next_sequence == 0 {
            self.next_sequence = 1;
        }
        sequence
    }

    /// The keyboard resumed: the returned sequence starts a fresh emulation.
    pub fn on_keyboard_resumed(&mut self) -> (r: u32)
        requires
            old(self).wf(),
        ensures
            final(self).wf(),
            final(self).resumed,
            final(self).emulating == old(self).emulating,
            r == old(self).next_sequence,
            r != 0,
    {
        self.resumed = true;
        self.take_next_sequence()
    }

    /// Whether the restarted emulation reached EIS decides the session's
    /// health and whether it must reconnect.
    pub fn on_emulation_restarted(&mut self, flushed: bool) -> (r: (EventOutcome, PortalEisHealth))
        requires
            old(self).wf(),
        ensures
            final(self).wf(),
            final(self).resumed == old(self).resumed,
            final(self).next_sequence == old(self).next_sequence,
            final(self).emulating == flushed,
            r == if flushed {
                (EventOutcome::Continue, PortalEisHealth::Ready)
            } else {
                (EventOutcome::Reconnect, PortalEisHealth::Recovering)
            },
    {
        self.emulating = flushed;
        if flushed {
            (EventOutcome::Continue, PortalEisHealth::Ready)
        } else {
            (EventOutcome::Reconnect, PortalEisHealth::Recovering)
        }
    }

    /// The keyboard was paused: EIS resets it, so emulation restarts on resume.
    pub fn on_keyboard_paused(&mut self) -> (r: (EventOutcome, PortalEisHealth))
        requires
            old(self).wf(),
        ensures
            final(self).wf(),
            !final(self).resumed,
            !final(self).emulating,
            final(self).next_sequence == old(self).next_sequence,
            r == (EventOutcome::Continue, PortalEisHealth::Paused),
    {
        self.resumed = false;
        self.emulating = false;
        (EventOutcome::Continue, PortalEisHealth::Paused)
    }

    /// The keyboard went away or EIS disconnected: the session reconnects.
    pub fn on_keyboard_lost(&mut self) -> (r: (EventOutcome, PortalEisHealth))
        requires
            old(self).wf(),
        ensures
            final(self).wf(),
            !final(self).resumed,
            !final(self).emulating,
            final(self).next_sequence == old(self).next_sequence,
            r == (EventOutcome::Reconnect, PortalEisHealth::Recovering),
    {
        self.resumed = false;
        self.emulating = false;
        (EventOutcome::Reconnect, PortalEisHealth::Recovering)
    }

    /// Whether key events can be sent.
    pub fn can_paste(&self, keyboard_alive: bool) -> (r: bool)
        ensures
            r == (self.resumed && self.emulating && keyboard_alive),
    {
        self.resumed && self.emulating && keyboard_alive
    }

    /// Ends emulation; returns whether a stop request must be sent (only for
    /// an emulating, live keyboard).
    pub fn stop_emulating(&mut self, keyboard_alive: bool) -> (r: bool)
        ensures
            r == (old(self).resumed && old(self).emulating && keyboard_alive),
            !final(self).emulating,
            final(self).resumed == old(self).resumed,
            final(self).next_sequence == old(self).next_sequence,
    {
        let send = self.resumed && self.emulating && keyboard_alive;
        self.emulating = false;
        send
    }
}

/// How a session's run ends.
#[derive(Debug, Clone, Copy, PartialEq, Eq, Structural)]
pub enum SessionRunOutcome {
    /// The connection is lost: set up a new session.
    Reconnect,
    /// The paste backend is gone (its command channel closed): stop for good.
    BackendDropped,
}

/// What a running session sees next.
#[derive(Debug)]
pub enum RunInput {
    /// A paste request was served with this result (which goes back to the requester).
    Pasted(Result<(), PasteError>),
    /// The command channel closed.
    CommandsClosed,
    /// An EIS event was handled with this outcome.
    Event(EventOutcome),
    /// The EIS event stream reported an error.
    EventStreamFailed,
    /// The EIS event stream ended.
    EventStreamEnded,
}

/// What the run does after an input: go on, or stop emulating and end with
/// the outcome, storing the health first when there is one to store.
#[derive(Debug, Clone, Copy, PartialEq, Eq, Structural)]
pub enum RunStep {
    Continue,
    Stop { outcome: SessionRunOutcome, health: Option<PortalEisHealth> },
}

/// One step of a session's run: a paste that failed on the connection, an
/// event stream that failed or ended, and an event that asks for it, end the
/// run with a reconnect (the stream and paste cases marking the session as
/// recovering); a closed command channel ends it for good; anything else
/// goes on.
pub open spec fn run_step_spec(input: RunInput) -> RunStep {
    match input {
        RunInput::Pasted(Err(PasteError::Failed(_))) => RunStep::Stop {
            outcome: SessionRunOutcome::Reconnect,
            health: Some(PortalEisHealth::Recovering),
        },
        RunInput::Pasted(_) => RunStep::Continue,
        RunInput::CommandsClosed => RunStep::Stop {
            outcome: SessionRunOutcome::BackendDropped,
            health: None,
        },
        RunInput::Event(EventOutcome::Continue) => RunStep::Continue,
        RunInput::Event(EventOutcome::Reconnect) => RunStep::Stop {
            outcome: SessionRunOutcome::Reconnect,
            health: None,
        },
        RunInput::EventStreamFailed => RunStep::Stop {
            outcome: SessionRunOutcome::Reconnect,
            health: Some(PortalEisHealth::Recovering),
        },
        RunInput::EventStreamEnded => RunStep::Stop {
            outcome: SessionRunOutcome::Reconnect,
            health: Some(PortalEisHealth::Recovering),
        },
    }
}

pub fn run_step(input: &RunInput) -> (r: RunStep)
    ensures
        r == run_step_spec(*input),
{
    match input {
        RunInput::Pasted(result) => {
            if paste_needs_reconnect(result) {
                RunStep::Stop {
                    outcome: SessionRunOutcome::Reconnect,
                    health: Some(PortalEisHealth::Recovering),
                }
            } else {
                RunStep::Continue
            }
        },
        RunInput::CommandsClosed => RunStep::Stop {
            outcome: SessionRunOutcome::BackendDropped,
            health: None,
        },
        RunInput::Event(EventOutcome::Continue) => RunStep::Continue,
        RunInput::Event(EventOutcome::Reconnect) => RunStep::Stop {
            outcome: SessionRunOutcome::Reconnect,
            health: None,
        },
        RunInput::EventStreamFailed => RunStep::Stop {
            outcome: SessionRunOutcome::Reconnect,
            health: Some(PortalEisHealth::Recovering),
        },
        RunInput::EventStreamEnded => RunStep::Stop {
            outcome: SessionRunOutcome::Reconnect,
            health: Some(PortalEisHealth::Recovering),
        },
    }
}

/// The health the worker stores once a run ended, and whether it goes on to
/// reconnect: a dropped backend fails for good, a lost connection recovers.
pub fn after_run(outcome: SessionRunOutcome) -> (r: (PortalEisHealth, bool))
    ensures
        r == match outcome {
            SessionRunOutcome::BackendDropped => (PortalEisHealth::Failed, false),
            SessionRunOutcome::Reconnect => (PortalEisHealth::Recovering, true),
        },
{
    match outcome {
        SessionRunOutcome::BackendDropped => (PortalEisHealth::Failed, false),
        SessionRunOutcome::Reconnect => (PortalEisHealth::Recovering, true),
    }
}

/// A run never ends with the session ready for direct paste, and only a
/// closed command channel ends the worker.
pub proof fn lemma_run_end_never_ready(input: RunInput)
    ensures
        run_step_spec(input) matches RunStep::Stop { health: Some(h), .. } ==> h
            == PortalEisHealth::Recovering,
        run_step_spec(input) matches RunStep::Stop { outcome: SessionRunOutcome::BackendDropped, .. }
            <==> input is CommandsClosed,
{
}

/// A failed paste means the connection failed: the session must reconnect.
pub fn paste_needs_reconnect(result: &Result<(), PasteError>) -> (r: bool)
    ensures
        r == (result matches Err(PasteError::Failed(_))),
{
    match result {
        Err(PasteError::Failed(_)) => true,
        _ => false,
    }
}

/// One key event.
#[derive(Debug, Clone, Copy, PartialEq, Eq, Structural)]
pub struct KeyFrame {
    pub key: u32,
    pub pressed: bool,
}

/// Ctrl+V: press Ctrl, press V, release V, release Ctrl.
pub open spec fn ctrl_v_spec() -> Seq<KeyFrame> {
    seq![
        KeyFrame { key: KEY_LEFTCTRL, pressed: true },
        KeyFrame { key: KEY_V, pressed: true },
        KeyFrame { key: KEY_V, pressed: false },
        KeyFrame { key: KEY_LEFTCTRL, pressed: false },
    ]
}

/// The releases owed when only the first `sent` frames of Ctrl+V went out:
/// V before Ctrl.
pub open spec fn cleanup_spec(sent: nat) -> Seq<KeyFrame> {
    if sent == 1 {
        seq![KeyFrame { key: KEY_LEFTCTRL, pressed: false }]
    } else if sent == 2 {
        seq![
            KeyFrame { key: KEY_V, pressed: false },
            KeyFrame { key: KEY_LEFTCTRL, pressed: false },
        ]
    } else if sent == 3 {
        seq![KeyFrame { key: KEY_LEFTCTRL, pressed: false }]
    } else {
        Seq::empty()
    }
}

/// Whether `key` is held down after the frames.
pub open spec fn held(frames: Seq<KeyFrame>, key: u32) -> bool
    decreases frames.len(),
{
    if frames.len() == 0 {
        false
    } else if frames.last().key == key {
        frames.last().pressed
    } else {
        held(frames.drop_last(), key)
    }
}

pub fn ctrl_v_frames() -> (r: Vec<KeyFrame>)
    ensures
        r@ == ctrl_v_spec(),
{
    let r = vec![
        KeyFrame { key: KEY_LEFTCTRL, pressed: true },
        KeyFrame { key: KEY_V, pressed: true },
        KeyFrame { key: KEY_V, pressed: false },
        KeyFrame { key: KEY_LEFTCTRL, pressed: false },
    ];
    assert(r@ =~= ctrl_v_spec());
    r
}

/// The releases to send when a paste stopped after `sent` frames.
pub fn cleanup_frames(sent: usize) -> (r: Vec<KeyFrame>)
    ensures
        r@ == cleanup_spec(sent as nat),
{
    let mut r: Vec<KeyFrame> = Vec::new();
    if sent == 2 {
        r.push(KeyFrame { key: KEY_V, pressed: false });
    }
    if sent == 1 || sent == 2 || sent == 3 {
        r.push(KeyFrame { key: KEY_LEFTCTRL, pressed: false });
    }
    proof {
        if sent == 2 {
            assert(r@ =~= cleanup_spec(2));
        } else if sent == 1 || sent == 3 {
            assert(r@ =~= cleanup_spec(sent as nat));
        } else {
            assert(r@ =~= cleanup_spec(sent as nat));
        }
    }
    r
}

/// However far a paste got, the frames sent plus the cleanup leave no key
/// held down.
pub proof fn lemma_paste_never_leaves_keys_held(sent: nat, key: u32)
    requires
        sent <= 4,
    ensures
        !held(ctrl_v_spec().take(sent as int) + cleanup_spec(sent), key),
{
    reveal_with_fuel(held, 5);
    let s = ctrl_v_spec().take(sent as int) + cleanup_spec(sent);
    if sent == 0 {
        assert(s =~= Seq::<KeyFrame>::empty());
    } else if sent == 1 {
        assert(s =~= seq![
            KeyFrame { key: KEY_LEFTCTRL, pressed: true },
            KeyFrame { key: KEY_LEFTCTRL, pressed: false },
        ]);
        assert(s.drop_last() =~= seq![KeyFrame { key: KEY_LEFTCTRL, pressed: true }]);
    } else if sent == 2 {
        assert(s =~= seq![
            KeyFrame { key: KEY_LEFTCTRL, pressed: true },
            KeyFrame { key: KEY_V, pressed: true },
            KeyFrame { key: KEY_V, pressed: false },
            KeyFrame { key: KEY_LEFTCTRL, pressed: false },
        ]);
        assert(s.drop_last() =~= ctrl_v_spec().take(3));
        assert(s.drop_last().drop_last() =~= ctrl_v_spec().take(2));
        assert(s.drop_last().drop_last().drop_last() =~= ctrl_v_spec().take(1));
    } else if sent == 3 {
        assert(s =~= ctrl_v_spec());
        assert(s.drop_last() =~= ctrl_v_spec().take(3));
        assert(s.drop_last().drop_last() =~= ctrl_v_spec().take(2));
        assert(s.drop_last().drop_last().drop_last() =~= ctrl_v_spec().take(1));
    } else {
        assert(s =~= ctrl_v_spec());
        assert(s.drop_last() =~= ctrl_v_spec().take(3));
        assert(s.drop_last().drop_last() =~= ctrl_v_spec().take(2));
        assert(s.drop_last().drop_last().drop_last() =~= ctrl_v_spec().take(1));
    }
}

/// Where the restore token is kept: `$XDG_STATE_HOME/pookie-paste/<file>` when
/// that is set and not empty, else `$HOME/.local/state/pookie-paste/<file>`
/// when `HOME` is set and not empty.
pub open spec fn restore_token_path_spec(state_home: Option<Seq<char>>, home: Option<Seq<char>>) -> Option<
    Seq<char>,
> {
    match state_home {
        Some(s) if s.len() > 0 => Some(
            path_join(path_join(s, "pookie-paste"@), RESTORE_TOKEN_FILE@),
        ),
        _ => match home {
            Some(h) if h.len() > 0 => Some(
                path_join(
                    path_join(
                        path_join(path_join(h, ".local"@), "state"@),
                        "pookie-paste"@,
                    ),
                    RESTORE_TOKEN_FILE@,
                ),
            ),
            _ => None,
        },
    }
}

pub fn restore_token_path(state_home: Option<&str>, home: Option<&str>) -> (r: Option<String>)
    ensures
        match r {
            Some(p) => restore_token_path_spec(
                match state_home {
                    Some(s) => Some(s@),
                    None => None,
                },
                match home {
                    Some(h) => Some(h@),
                    None => None,
                },
            ) == Some(p@),
            None => restore_token_path_spec(
                match state_home {
                    Some(s) => Some(s@),
                    None => None,
                },
                match home {
                    Some(h) => Some(h@),
                    None => None,
                },
            ) is None,
        },
{
    if let Some(s) = state_home {
        let mut p = str_chars(s);
        if p.len() > 0 {
            path_push(&mut p, "pookie-paste");
            path_push(&mut p, RESTORE_TOKEN_FILE);
            return Some(chars_to_string(&p));
        }
    }
    match home {
        Some(h) => {
            let mut p = str_chars(h);
            if p.len() == 0 {
                return None;
            }
            path_push(&mut p, ".local");
            path_push(&mut p, "state");
            path_push(&mut p, "pookie-paste");
            path_push(&mut p, RESTORE_TOKEN_FILE);
            Some(chars_to_string(&p))
        },
        None => None,
    }
}

/// A stored restore token: the file's text without surrounding whitespace,
/// unless that is empty.
pub open spec fn restore_token_spec(content: Seq<char>) -> Option<Seq<char>> {
    if trim(content).len() == 0 {
        None
    } else {
        Some(trim(content))
    }
}

pub fn parse_restore_token(content: &str) -> (r: Option<String>)
    ensures
        match r {
            Some(t) => restore_token_spec(content@) == Some(t@),
            None => restore_token_spec(content@) is None,
        },
{
    let c = str_chars(content);
    let t = trim_chars(&c);
    if t.len() == 0 {
        None
    } else {
        Some(chars_to_string(&t))
    }
}

/// What becomes of the stored token after the portal started: a new token is
/// saved, and without one a stale token is cleared.
#[derive(Debug)]
pub enum RestoreTokenAction {
    Save(String),
    Clear,
}

pub fn restore_token_action(granted: Option<&str>) -> (r: RestoreTokenAction)
    ensures
        match granted {
            Some(t) => r matches RestoreTokenAction::Save(s) && s@ == t@,
            None => r matches RestoreTokenAction::Clear,
        },
{
    match granted {
        Some(t) => {
            let v = str_chars(t);
            RestoreTokenAction::Save(chars_to_string(&v))
        },
        None => RestoreTokenAction::Clear,
    }
}

/// Whether the RemoteDesktop portal can give a keyboard: version 2 or later
/// and keyboard devices offered.
pub fn portal_supports_keyboard(version: u32, keyboard_offered: bool) -> (r: Result<(), PasteError>)
    ensures
        (version >= 2 && keyboard_offered) ==> r is Ok,
        !(version >= 2 && keyboard_offered) ==> r matches Err(PasteError::Unavailable),
{
    if version < 2 {
        return Err(PasteError::Unavailable);
    }
    if !keyboard_offered {
        return Err(PasteError::Unavailable);
    }
    Ok(())
}

/// The portal must start a keyboard device, else direct paste is unavailable.
pub fn started_with_keyboard(keyboard_started: bool) -> (r: Result<(), PasteError>)
    ensures
        keyboard_started ==> r is Ok,
        !keyboard_started ==> r matches Err(PasteError::Unavailable),
{
    if keyboard_started {
        Ok(())
    } else {
        Err(PasteError::Unavailable)
    }
}

// ---------------------------------------------------------------------------
// Setting up the EI keyboard

/// What the setup waits for, in order: a seat, a keyboard device on it, and
/// that device resuming.
#[derive(Debug, Clone, Copy, PartialEq, Eq, Structural)]
pub enum DiscoveryStage {
    Seat,
    Keyboard,
    Resume,
}

/// An EI event during setup, as the setup reads it; devices are told apart by
/// an identifier, and a disconnection carries its description.
#[derive(Debug)]
pub enum SetupEvent {
    SeatAdded,
    DeviceAdded { device: u64, keyboard: bool },
    DeviceResumed { device: u64, serial: u32 },
    DeviceRemoved { device: u64 },
    Disconnected(String),
    Other,
}

/// What the setup does after an event.
#[derive(Debug)]
pub enum DiscoveryNext {
    /// Keep waiting in the same stage.
    Wait,
    /// The seat is there: bind the keyboard capability and wait for a keyboard.
    SeatFound,
    /// A keyboard device is there: wait for it to resume.
    KeyboardFound { device: u64 },
    /// The keyboard resumed with this serial: start emulating.
    Resumed { serial: u32 },
    /// The setup fails.
    Fail(PasteError),
}

/// The words naming a stage in the setup's messages.
pub open spec fn stage_during(stage: DiscoveryStage) -> Seq<char> {
    match stage {
        DiscoveryStage::Seat => "during seat discovery"@,
        DiscoveryStage::Keyboard => "during keyboard discovery"@,
        DiscoveryStage::Resume => "before keyboard resume"@,
    }
}

fn stage_during_str(stage: DiscoveryStage) -> (r: &'static str)
    ensures
        r@ == stage_during(stage),
{
    match stage {
        DiscoveryStage::Seat => "during seat discovery",
        DiscoveryStage::Keyboard => "during keyboard discovery",
        DiscoveryStage::Resume => "before keyboard resume",
    }
}

/// One event of the setup. A disconnection fails every stage; the seat stage
/// takes the first seat, the keyboard stage the first device with the
/// keyboard capability, and the resume stage the resumption of that device,
/// whose removal makes direct paste unavailable. Other events are skipped.
pub fn discovery_step(stage: DiscoveryStage, keyboard_device: u64, event: SetupEvent) -> (r: DiscoveryNext)
    ensures
        event matches SetupEvent::Disconnected(d) ==> (r matches DiscoveryNext::Fail(PasteError::Failed(m))
            && m@ == "EIS disconnected "@ + stage_during(stage) + ": "@ + d@),
        stage == DiscoveryStage::Seat ==> match event {
            SetupEvent::SeatAdded => r is SeatFound,
            SetupEvent::Disconnected(_) => true,
            _ => r is Wait,
        },
        stage == DiscoveryStage::Keyboard ==> match event {
            SetupEvent::DeviceAdded { device, keyboard } => if keyboard {
                r matches DiscoveryNext::KeyboardFound { device: d } && d == device
            } else {
                r is Wait
            },
            SetupEvent::Disconnected(_) => true,
            _ => r is Wait,
        },
        stage == DiscoveryStage::Resume ==> match event {
            SetupEvent::DeviceResumed { device, serial } => if device == keyboard_device {
                r matches DiscoveryNext::Resumed { serial: s } && s == serial
            } else {
                r is Wait
            },
            SetupEvent::DeviceRemoved { device } => if device == keyboard_device {
                r matches DiscoveryNext::Fail(PasteError::Unavailable)
            } else {
                r is Wait
            },
            SetupEvent::Disconnected(_) => true,
            _ => r is Wait,
        },
{
    match event {
        SetupEvent::Disconnected(d) => {
            let mut m = str_chars("EIS disconnected ");
            append_str(&mut m, stage_during_str(stage));
            append_str(&mut m, ": ");
            append_str(&mut m, d.as_str());
            DiscoveryNext::Fail(PasteError::Failed(chars_to_string(&m)))
        },
        SetupEvent::SeatAdded => match stage {
            DiscoveryStage::Seat => DiscoveryNext::SeatFound,
            _ => DiscoveryNext::Wait,
        },
        SetupEvent::DeviceAdded { device, keyboard } => match stage {
            DiscoveryStage::Keyboard => if keyboard {
                DiscoveryNext::KeyboardFound { device }
            } else {
                DiscoveryNext::Wait
            },
            _ => DiscoveryNext::Wait,
        },
        SetupEvent::DeviceResumed { device, serial } => match stage {
            DiscoveryStage::Resume => if device == keyboard_device {
                DiscoveryNext::Resumed { serial }
            } else {
                DiscoveryNext::Wait
            },
            _ => DiscoveryNext::Wait,
        },
        SetupEvent::DeviceRemoved { device } => match stage {
            DiscoveryStage::Resume => if device == keyboard_device {
                DiscoveryNext::Fail(PasteError::Unavailable)
            } else {
                DiscoveryNext::Wait
            },
            _ => DiscoveryNext::Wait,
        },
        SetupEvent::Other => DiscoveryNext::Wait,
    }
}

/// The words naming what a stage waits for, in the setup's messages.
pub open spec fn stage_goal(stage: DiscoveryStage) -> Seq<char> {
    match stage {
        DiscoveryStage::Seat => "seat discovery"@,
        DiscoveryStage::Keyboard => "keyboard discovery"@,
        DiscoveryStage::Resume => "keyboard resume"@,
    }
}

/// The event stream ended before the stage was done.
pub fn discovery_stream_ended(stage: DiscoveryStage) -> (r: PasteError)
    ensures
        r matches PasteError::Failed(m) && m@ == "EI event stream ended before "@ + stage_goal(stage),
{
    let mut m = str_chars("EI event stream ended before ");
    match stage {
        DiscoveryStage::Seat => append_str(&mut m, "seat discovery"),
        DiscoveryStage::Keyboard => append_str(&mut m, "keyboard discovery"),
        DiscoveryStage::Resume => append_str(&mut m, "keyboard resume"),
    }
    PasteError::Failed(chars_to_string(&m))
}

/// Receiving an event failed during the stage.
pub fn discovery_receive_error(stage: DiscoveryStage, detail: &str) -> (r: PasteError)
    ensures
        r matches PasteError::Failed(m) && m@ == "failed receiving EI event "@ + match stage {
            DiscoveryStage::Resume => "while waiting for keyboard resume"@,
            _ => stage_during(stage),
        } + ": "@ + detail@,
{
    let mut m = str_chars("failed receiving EI event ");
    match stage {
        DiscoveryStage::Resume => append_str(&mut m, "while waiting for keyboard resume"),
        _ => append_str(&mut m, stage_during_str(stage)),
    }
    append_str(&mut m, ": ");
    append_str(&mut m, detail);
    PasteError::Failed(chars_to_string(&m))
}

/// The stage did not finish in time.
pub fn discovery_timeout(stage: DiscoveryStage) -> (r: PasteError)
    ensures
        r matches PasteError::Failed(m) && m@ == match stage {
            DiscoveryStage::Seat => "timed out waiting for EI seat"@,
            DiscoveryStage::Keyboard => "timed out waiting for EI keyboard device"@,
            DiscoveryStage::Resume => "timed out waiting for EI keyboard device to resume"@,
        },
{
    let v = match stage {
        DiscoveryStage::Seat => str_chars("timed out waiting for EI seat"),
        DiscoveryStage::Keyboard => str_chars("timed out waiting for EI keyboard device"),
        DiscoveryStage::Resume => str_chars("timed out waiting for EI keyboard device to resume"),
    };
    PasteError::Failed(chars_to_string(&v))
}

} // verus!

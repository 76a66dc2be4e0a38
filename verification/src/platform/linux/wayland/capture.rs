//! Keyboard capture through the input-capture portal and the embedded-input
//! protocol.
//!
//! [`LinuxWaylandCapture`] is the caller's half: the link to the worker, and
//! a start that waits for the session's set-up and fails if there is no
//! session to capture from. The worker's half is [`CaptureSession`], the
//! course of the portal session, and [`handle_ei_event`], the reaction to
//! each protocol event while it runs.

use crate::platform::linux::keycodes::evdev_key;
use crate::platform::linux::keycodes::evdev_to_keycode;
use crate::platform::linux::worker::stopped;
use crate::platform::linux::worker::Shutdown;
use crate::platform::linux::worker::WorkerLink;
use crate::platform::already_running_message;
use crate::platform::checked;
use crate::platform::InputEvent;
use crate::platform::KeyState;
use crate::platform::Lifecycle;
use crate::platform::PlatformError;
use crate::platform::PlatformErrorView;
use tokio::sync::oneshot::Receiver;
use vstd::prelude::*;

verus! {

/// One event of the embedded-input protocol, as far as the capture reads it.
#[derive(Debug, Clone, Copy, PartialEq, Eq, Structural)]
pub enum EiInput {
    /// A seat appeared and offers its capabilities.
    SeatAdded,
    /// A key changed state; `key` is a Linux evdev code.
    KeyboardKey { key: u32, state: KeyState },
    /// A device appeared.
    DeviceAdded,
    /// A device stopped sending.
    DevicePaused,
    /// A device resumed sending.
    DeviceResumed,
    /// The modifier state changed. Not recorded in events so far.
    KeyboardModifiers,
    /// Any other event.
    Other,
}

/// What the worker does about a protocol event.
#[derive(Debug, Clone, PartialEq, Eq)]
pub enum EiReaction {
    /// Bind the keyboard capability of the seat, then flush the transport at
    /// once. Without the flush no event is ever delivered.
    BindKeyboardThenFlush,
    /// Hand the event to the callback.
    Deliver(InputEvent),
    /// Nothing.
    Nothing,
}

/// The reaction that `event` calls for.
pub open spec fn reaction_to(event: EiInput) -> EiReaction {
    match event {
        EiInput::SeatAdded => EiReaction::BindKeyboardThenFlush,
        EiInput::KeyboardKey { key, state } => match evdev_key(key) {
            Some(key) => EiReaction::Deliver(InputEvent::bare(key, state)),
            None => EiReaction::Nothing,
        },
        _ => EiReaction::Nothing,
    }
}

/// Decides what to do about one protocol event.
///
/// A new seat gets its keyboard capability bound and the transport flushed.
/// A key with a canonical identity is delivered; one without is dropped.
/// Nothing else has an effect.
pub fn handle_ei_event(event: EiInput) -> (reaction: EiReaction)
    ensures
        reaction == reaction_to(event),
{
    match event {
        EiInput::SeatAdded => EiReaction::BindKeyboardThenFlush,
        EiInput::KeyboardKey { key, state } => match evdev_to_keycode(key) {
            Some(key) => EiReaction::Deliver(InputEvent::bare(key, state)),
            None => EiReaction::Nothing,
        },
        EiInput::DeviceAdded => EiReaction::Nothing,
        EiInput::DevicePaused => EiReaction::Nothing,
        EiInput::DeviceResumed => EiReaction::Nothing,
        EiInput::KeyboardModifiers => EiReaction::Nothing,
        EiInput::Other => EiReaction::Nothing,
    }
}

/// What the capture loop woke up for.
#[derive(Debug, Clone, Copy, PartialEq, Eq, Structural)]
pub enum LoopSignal {
    /// The stop signal fired.
    Stop,
    /// The protocol stream delivered an event.
    Protocol(EiInput),
    /// The protocol stream reported an error.
    ProtocolError,
    /// The protocol stream is closed.
    ProtocolEnded,
    /// The portal signalled that the capture was activated.
    Activated,
    /// The activation signal's stream is closed.
    ActivationEnded,
}

/// What the capture loop does next.
#[derive(Debug, Clone, PartialEq, Eq)]
pub enum LoopStep {
    /// React to the protocol event, then wait again.
    React(EiReaction),
    /// Wait again.
    Continue,
    /// Leave the loop.
    Exit,
}

/// The step that follows `signal`: a protocol event is reacted to, an error
/// in the stream or an activation is noted and the loop goes on, and the
/// stop signal or the end of either stream ends the loop.
pub open spec fn loop_step_after(signal: LoopSignal) -> LoopStep {
    match signal {
        LoopSignal::Protocol(event) => LoopStep::React(reaction_to(event)),
        LoopSignal::ProtocolError | LoopSignal::Activated => LoopStep::Continue,
        LoopSignal::Stop | LoopSignal::ProtocolEnded | LoopSignal::ActivationEnded => LoopStep::Exit,
    }
}

/// Decides one turn of the capture loop.
pub fn capture_step(signal: LoopSignal) -> (step: LoopStep)
    ensures
        step == loop_step_after(signal),
{
    match signal {
        LoopSignal::Protocol(event) => LoopStep::React(handle_ei_event(event)),
        LoopSignal::ProtocolError => LoopStep::Continue,
        LoopSignal::Activated => LoopStep::Continue,
        LoopSignal::Stop => LoopStep::Exit,
        LoopSignal::ProtocolEnded => LoopStep::Exit,
        LoopSignal::ActivationEnded => LoopStep::Exit,
    }
}

/// Where a capture session stands: which reply the worker waits for.
#[derive(Debug, Clone, Copy, PartialEq, Eq, Structural)]
pub enum SessionPhase {
    /// Nothing was requested yet.
    Unopened,
    /// Waiting for the connection to the portal.
    Connecting,
    /// Waiting for the session.
    CreatingSession,
    /// Waiting for the capture zones.
    QueryingZones,
    /// Waiting for the pointer barriers to be registered.
    SettingBarriers,
    /// Waiting for the event transport's descriptor.
    ConnectingToEis,
    /// Waiting for the subscription to the activation signal.
    Subscribing,
    /// Waiting for the session to be enabled.
    Enabling,
    /// Waiting for the protocol handshake.
    Handshaking,
    /// The capture loop runs.
    Capturing,
    /// Waiting for the session to be disabled.
    Disabling,
    /// The session is over.
    Closed,
}

/// What the worker reports back after each request.
#[derive(Debug, Clone, Copy, PartialEq, Eq, Structural)]
pub enum SessionEvent {
    /// The worker is up.
    Begin,
    /// The request succeeded.
    Completed,
    /// The zones request succeeded; `zone_set` is the zones' generation.
    Zones { zone_set: u32 },
    /// The request failed.
    Failed,
    /// The request was refused: the portal or the user denied it.
    Refused,
    /// The capture loop ended: the stop signal fired or a stream closed.
    LoopEnded,
}

/// How a session ended.
#[derive(Debug, Clone, Copy, PartialEq, Eq, Structural)]
pub enum SessionEnd {
    /// The capture ran and was stopped.
    Stopped,
    /// There is no session to capture from: the portal could not be reached
    /// or made no session.
    Unavailable,
    /// The capture was refused.
    Denied,
    /// The session failed otherwise before the capture ran.
    Failed,
}

/// What the worker is asked to do next.
#[derive(Debug, Clone, Copy, PartialEq, Eq, Structural)]
pub enum SessionRequest {
    /// Connect to the portal.
    Connect,
    /// Create a session for the keyboard capability alone.
    CreateKeyboardSession,
    /// Ask for the capture zones.
    QueryZones,
    /// Register an empty set of pointer barriers for zone generation
    /// `zone_set`. Required even though no pointer is captured.
    SetEmptyBarriers { zone_set: u32 },
    /// Obtain the descriptor of the event transport.
    ConnectToEis,
    /// Subscribe to the activation signal.
    SubscribeActivated,
    /// Enable the session.
    Enable,
    /// Shake hands on the transport as the receiving side.
    Handshake,
    /// Run the capture loop until it ends.
    Capture,
    /// Disable the session, as far as that still works.
    Disable,
    /// Leave.
    Finish(SessionEnd),
}

impl SessionPhase {
    /// The phase that follows when the pending request succeeds.
    pub open spec fn next(self) -> SessionPhase {
        match self {
            SessionPhase::Unopened => SessionPhase::Connecting,
            SessionPhase::Connecting => SessionPhase::CreatingSession,
            SessionPhase::CreatingSession => SessionPhase::QueryingZones,
            SessionPhase::QueryingZones => SessionPhase::SettingBarriers,
            SessionPhase::SettingBarriers => SessionPhase::ConnectingToEis,
            SessionPhase::ConnectingToEis => SessionPhase::Subscribing,
            SessionPhase::Subscribing => SessionPhase::Enabling,
            SessionPhase::Enabling => SessionPhase::Handshaking,
            SessionPhase::Handshaking => SessionPhase::Capturing,
            SessionPhase::Capturing => SessionPhase::Disabling,
            SessionPhase::Disabling => SessionPhase::Closed,
            SessionPhase::Closed => SessionPhase::Closed,
        }
    }

    /// Whether `event` is the report that lets the session leave this phase
    /// for the next one. Disabling is best effort: any report will do.
    pub open spec fn is_completed_by(self, event: SessionEvent) -> bool {
        match self {
            SessionPhase::Unopened => event == SessionEvent::Begin,
            SessionPhase::QueryingZones => event is Zones,
            SessionPhase::Capturing => event == SessionEvent::LoopEnded,
            SessionPhase::Disabling => true,
            SessionPhase::Closed => false,
            _ => event == SessionEvent::Completed,
        }
    }

    /// The request that the worker carries out in this phase, when `event`
    /// led to it.
    pub open spec fn request(self, event: SessionEvent) -> SessionRequest {
        match self {
            SessionPhase::Unopened => SessionRequest::Finish(SessionEnd::Failed),
            SessionPhase::Connecting => SessionRequest::Connect,
            SessionPhase::CreatingSession => SessionRequest::CreateKeyboardSession,
            SessionPhase::QueryingZones => SessionRequest::QueryZones,
            SessionPhase::SettingBarriers => SessionRequest::SetEmptyBarriers {
                zone_set: event->zone_set,
            },
            SessionPhase::ConnectingToEis => SessionRequest::ConnectToEis,
            SessionPhase::Subscribing => SessionRequest::SubscribeActivated,
            SessionPhase::Enabling => SessionRequest::Enable,
            SessionPhase::Handshaking => SessionRequest::Handshake,
            SessionPhase::Capturing => SessionRequest::Capture,
            SessionPhase::Disabling => SessionRequest::Disable,
            SessionPhase::Closed => SessionRequest::Finish(SessionEnd::Stopped),
        }
    }
}

/// How a session ends on a report that does not complete `phase`: as
/// denied on a refusal, as unavailable if the portal could not be reached
/// or made no session, as failed on anything else. A session that is not
/// open takes no report.
pub open spec fn failure_of(phase: SessionPhase, event: SessionEvent) -> SessionEnd {
    if phase == SessionPhase::Unopened || phase == SessionPhase::Closed {
        SessionEnd::Failed
    } else if event == SessionEvent::Refused {
        SessionEnd::Denied
    } else if event == SessionEvent::Failed && (phase == SessionPhase::Connecting || phase
        == SessionPhase::CreatingSession) {
        SessionEnd::Unavailable
    } else {
        SessionEnd::Failed
    }
}

/// The course of a session: the phase and the request that follow `event`
/// in `phase`.
///
/// The phases follow one another in a fixed order. The report that completes
/// a phase leads to the next phase and its request. Any other report ends the
/// session: a failure, a refusal, or a report that does not answer the
/// pending request.
pub open spec fn session_step(phase: SessionPhase, event: SessionEvent) -> (
    SessionPhase,
    SessionRequest,
) {
    if phase.is_completed_by(event) {
        (phase.next(), phase.next().request(event))
    } else {
        (SessionPhase::Closed, SessionRequest::Finish(failure_of(phase, event)))
    }
}

/// How the set-up of a session ended: everything before the capture loop.
#[derive(Debug, Clone, Copy, PartialEq, Eq, Structural)]
pub enum SetupOutcome {
    /// The session is enabled and the capture loop is about to run.
    Ready,
    /// There is no session to capture from.
    Unavailable,
    /// The capture was refused.
    Denied,
    /// The set-up failed otherwise, or the worker died over it.
    Failed,
}

/// What a request tells of the set-up: it is over with the request to run
/// the capture loop, or with the end of the session before that. `None`
/// while the set-up goes on, and for the end of a session that captured.
pub open spec fn setup_told_by(request: SessionRequest) -> Option<SetupOutcome> {
    match request {
        SessionRequest::Capture => Some(SetupOutcome::Ready),
        SessionRequest::Finish(SessionEnd::Unavailable) => Some(SetupOutcome::Unavailable),
        SessionRequest::Finish(SessionEnd::Denied) => Some(SetupOutcome::Denied),
        SessionRequest::Finish(SessionEnd::Failed) => Some(SetupOutcome::Failed),
        _ => None,
    }
}

/// Tells how the set-up ended, if `request` is the one that ends it. The
/// worker reports this to the start that waits for it.
pub fn setup_outcome(request: SessionRequest) -> (outcome: Option<SetupOutcome>)
    ensures
        outcome == setup_told_by(request),
{
    match request {
        SessionRequest::Capture => Some(SetupOutcome::Ready),
        SessionRequest::Finish(SessionEnd::Unavailable) => Some(SetupOutcome::Unavailable),
        SessionRequest::Finish(SessionEnd::Denied) => Some(SetupOutcome::Denied),
        SessionRequest::Finish(SessionEnd::Failed) => Some(SetupOutcome::Failed),
        _ => None,
    }
}

/// The error of a start that found no session to capture from.
pub open spec fn no_session_message() -> Seq<char> {
    "No input capture session is available. Ensure that xdg-desktop-portal runs in a Wayland session whose compositor supports the InputCapture portal."@
}

/// The error of a start whose capture was refused.
pub open spec fn capture_refused_message() -> Seq<char> {
    "Keyboard capture was refused. Allow input capture for this application when the desktop asks for it."@
}

/// The error of a start whose session could not be set up otherwise.
pub open spec fn setup_failed_message() -> Seq<char> {
    "input capture session could not be set up"@
}

/// The error that a start fails with on `setup`, if it fails.
pub open spec fn setup_error(setup: SetupOutcome) -> Option<PlatformErrorView> {
    match setup {
        SetupOutcome::Ready => None,
        SetupOutcome::Unavailable => Some(PlatformErrorView::Unavailable(no_session_message())),
        SetupOutcome::Denied => Some(
            PlatformErrorView::PermissionDenied(capture_refused_message()),
        ),
        SetupOutcome::Failed => Some(PlatformErrorView::Other(setup_failed_message())),
    }
}

/// The worker's view of one capture session.
pub struct CaptureSession {
    phase: SessionPhase,
}

impl View for CaptureSession {
    type V = SessionPhase;

    closed spec fn view(&self) -> SessionPhase {
        self.phase
    }
}

impl CaptureSession {
    /// A session on which nothing was requested yet.
    pub fn new() -> (session: CaptureSession)
        ensures
            session@ == SessionPhase::Unopened,
    {
        CaptureSession { phase: SessionPhase::Unopened }
    }

    /// Where the session stands.
    pub fn phase(&self) -> (phase: SessionPhase)
        ensures
            phase == self@,
    {
        self.phase
    }

    /// How a session ends on a report that does not complete `phase`.
    fn failure(phase: SessionPhase, event: SessionEvent) -> (end: SessionEnd)
        ensures
            end == failure_of(phase, event),
    {
        match (phase, event) {
            (SessionPhase::Unopened, _) => SessionEnd::Failed,
            (SessionPhase::Closed, _) => SessionEnd::Failed,
            (_, SessionEvent::Refused) => SessionEnd::Denied,
            (SessionPhase::Connecting, SessionEvent::Failed) => SessionEnd::Unavailable,
            (SessionPhase::CreatingSession, SessionEvent::Failed) => SessionEnd::Unavailable,
            _ => SessionEnd::Failed,
        }
    }

    /// Takes the worker's report and returns the next request.
    pub fn advance(&mut self, event: SessionEvent) -> (request: SessionRequest)
        ensures
            (final(self)@, request) == session_step(old(self)@, event),
    {
        let (phase, request) = match (self.phase, event) {
            (SessionPhase::Unopened, SessionEvent::Begin) => (
                SessionPhase::Connecting,
                SessionRequest::Connect,
            ),
            (SessionPhase::Connecting, SessionEvent::Completed) => (
                SessionPhase::CreatingSession,
                SessionRequest::CreateKeyboardSession,
            ),
            (SessionPhase::CreatingSession, SessionEvent::Completed) => (
                SessionPhase::QueryingZones,
                SessionRequest::QueryZones,
            ),
            (SessionPhase::QueryingZones, SessionEvent::Zones { zone_set }) => (
                SessionPhase::SettingBarriers,
                SessionRequest::SetEmptyBarriers { zone_set },
            ),
            (SessionPhase::SettingBarriers, SessionEvent::Completed) => (
                SessionPhase::ConnectingToEis,
                SessionRequest::ConnectToEis,
            ),
            (SessionPhase::ConnectingToEis, SessionEvent::Completed) => (
                SessionPhase::Subscribing,
                SessionRequest::SubscribeActivated,
            ),
            (SessionPhase::Subscribing, SessionEvent::Completed) => (
                SessionPhase::Enabling,
                SessionRequest::Enable,
            ),
            (SessionPhase::Enabling, SessionEvent::Completed) => (
                SessionPhase::Handshaking,
                SessionRequest::Handshake,
            ),
            (SessionPhase::Handshaking, SessionEvent::Completed) => (
                SessionPhase::Capturing,
                SessionRequest::Capture,
            ),
            (SessionPhase::Capturing, SessionEvent::LoopEnded) => (
                SessionPhase::Disabling,
                SessionRequest::Disable,
            ),
            (SessionPhase::Disabling, _) => (
                SessionPhase::Closed,
                SessionRequest::Finish(SessionEnd::Stopped),
            ),
            (phase, event) => (
                SessionPhase::Closed,
                SessionRequest::Finish(CaptureSession::failure(phase, event)),
            ),
        };
        self.phase = phase;
        request
    }
}

/// The session is enabled only after the activation signal was subscribed
/// to, so that the first activation cannot be missed: `Enable` is never
/// requested but in answer to a completed subscription.
pub proof fn lemma_subscribed_before_enabled(phase: SessionPhase, event: SessionEvent)
    requires
        session_step(phase, event).1 == SessionRequest::Enable,
    ensures
        phase == SessionPhase::Subscribing,
        event == SessionEvent::Completed,
{
}

/// The phase that a new session has reached after it took `reports`, one
/// after the other.
pub open spec fn phase_after(reports: Seq<SessionEvent>) -> SessionPhase
    decreases reports.len(),
{
    if reports.len() == 0 {
        SessionPhase::Unopened
    } else {
        session_step(phase_after(reports.drop_last()), reports.last()).0
    }
}

/// The request that a new session answers the last of `reports` with.
pub open spec fn request_after(reports: Seq<SessionEvent>) -> SessionRequest
    recommends
        reports.len() > 0,
{
    session_step(phase_after(reports.drop_last()), reports.last()).1
}

/// In every run of a session, the request before `Enable` is the
/// subscription to the activation signal.
pub proof fn lemma_enable_follows_subscription(reports: Seq<SessionEvent>)
    requires
        reports.len() > 0,
        request_after(reports) == SessionRequest::Enable,
    ensures
        reports.len() > 1,
        request_after(reports.drop_last()) == SessionRequest::SubscribeActivated,
{
    lemma_subscribed_before_enabled(phase_after(reports.drop_last()), reports.last());
}

/// In every run of a session, the capture loop starts right after the
/// handshake, which comes right after the session was enabled.
pub proof fn lemma_capture_follows_handshake(reports: Seq<SessionEvent>)
    requires
        reports.len() > 0,
        request_after(reports) == SessionRequest::Capture,
    ensures
        reports.len() > 2,
        request_after(reports.drop_last()) == SessionRequest::Handshake,
        request_after(reports.drop_last().drop_last()) == SessionRequest::Enable,
{
    let before = reports.drop_last();
    assert(phase_after(before) == SessionPhase::Handshaking);
    assert(before.len() > 0);
    assert(phase_after(before.drop_last()) == SessionPhase::Enabling);
    assert(before.drop_last().len() > 0);
}

/// The empty barrier set is registered against the zone generation that the
/// zones reply named, and against no other.
pub proof fn lemma_barriers_follow_zones(phase: SessionPhase, event: SessionEvent, zone_set: u32)
    requires
        session_step(phase, event).1 == (SessionRequest::SetEmptyBarriers { zone_set }),
    ensures
        phase == SessionPhase::QueryingZones,
        event == (SessionEvent::Zones { zone_set }),
{
}

/// Once the capture loop has ended the session is disabled, and a failure to
/// disable it is not escalated: the session ends as stopped either way.
pub proof fn lemma_disable_is_best_effort(event: SessionEvent)
    ensures
        session_step(SessionPhase::Capturing, SessionEvent::LoopEnded).1 == SessionRequest::Disable,
        session_step(SessionPhase::Disabling, event) == (
            SessionPhase::Closed,
            SessionRequest::Finish(SessionEnd::Stopped),
        ),
{
}

/// A closed session stays closed and asks for nothing more.
pub proof fn lemma_closed_is_final(event: SessionEvent)
    ensures
        session_step(SessionPhase::Closed, event).0 == SessionPhase::Closed,
        session_step(SessionPhase::Closed, event).1 is Finish,
{
}

/// Whatever ends a session before the capture ran tells how the set-up
/// ended, and so does the request to run the capture loop: a start that
/// waits for the set-up always gets its answer.
pub proof fn lemma_setup_always_ends(phase: SessionPhase, event: SessionEvent)
    requires
        phase != SessionPhase::Disabling,
        phase != SessionPhase::Closed,
    ensures
        session_step(phase, event).1 is Finish || session_step(phase, event).1
            == SessionRequest::Capture ==> setup_told_by(session_step(phase, event).1) is Some,
        setup_told_by(session_step(phase, event).1) == Some(SetupOutcome::Ready) <==> phase
            == SessionPhase::Handshaking && event == SessionEvent::Completed,
{
}

/// Keyboard capture through the input-capture portal.
pub struct LinuxWaylandCapture {
    link: WorkerLink,
}

/// A start that was admitted: the worker is to set up the session next, and
/// the start waits until it knows how that ended.
pub struct SessionGate {
    sealed: (),
}

impl View for LinuxWaylandCapture {
    type V = Lifecycle;

    closed spec fn view(&self) -> Lifecycle {
        self.link@
    }
}

/// The error that a start ends with for a capture in `before` whose
/// session was set up as `setup` says, if it fails. Only an idle capture
/// starts: on one that is not idle any more the start fails with `Other`,
/// whatever became of the session.
pub open spec fn start_error(before: Lifecycle, setup: SetupOutcome) -> Option<PlatformErrorView> {
    if before != Lifecycle::Idle {
        Some(PlatformErrorView::Other(already_running_message()))
    } else {
        setup_error(setup)
    }
}

impl SessionGate {
    /// Takes the outcome of the session's set-up and ends the start.
    ///
    /// Only if the session is ready, and `capture` still idle, is `capture`
    /// running afterwards; the caller then hands the receiving half of the
    /// stop signal to the worker. Without a session the start fails with
    /// `Unavailable`, on a refusal with `PermissionDenied`, on any other
    /// failure with `Other`, and `capture` stays as it was. A worker that
    /// gets no stop signal ends its session.
    pub fn resolve(self, capture: &mut LinuxWaylandCapture, setup: SetupOutcome) -> (started:
        Result<Receiver<()>, PlatformError>)
        ensures
            match start_error(old(capture)@, setup) {
                None => started is Ok && final(capture)@ == Lifecycle::Running,
                Some(error) => started matches Err(e) && e@ == error && final(capture)@ == old(
                    capture,
                )@,
            },
    {
        match capture.link.lifecycle() {
            Lifecycle::Idle => {},
            Lifecycle::Running => {
                return Err(PlatformError::other("capture is already running"));
            },
        }
        match setup {
            SetupOutcome::Ready => Ok(capture.link.arm()),
            SetupOutcome::Unavailable => Err(
                PlatformError::unavailable(
                    "No input capture session is available. Ensure that xdg-desktop-portal runs in a Wayland session whose compositor supports the InputCapture portal.",
                ),
            ),
            SetupOutcome::Denied => Err(
                PlatformError::permission_denied(
                    "Keyboard capture was refused. Allow input capture for this application when the desktop asks for it.",
                ),
            ),
            SetupOutcome::Failed => Err(
                PlatformError::other("input capture session could not be set up"),
            ),
        }
    }
}

impl LinuxWaylandCapture {
    /// An idle capture.
    pub fn new() -> (capture: LinuxWaylandCapture)
        ensures
            capture@ == Lifecycle::Idle,
    {
        LinuxWaylandCapture { link: WorkerLink::new() }
    }

    /// Admits a start, which is valid on an idle capture only: on a running
    /// one it fails with `Other`. The capture itself changes when the start
    /// ends, not before.
    pub fn start(&self) -> (admitted: Result<SessionGate, PlatformError>)
        ensures
            checked(
                admitted,
                self@ == Lifecycle::Idle,
                PlatformErrorView::Other(already_running_message()),
            ),
    {
        match self.link.lifecycle() {
            Lifecycle::Idle => Ok(SessionGate { sealed: () }),
            Lifecycle::Running => Err(PlatformError::other("capture is already running")),
        }
    }

    /// Stops the capture. Never fails, and does nothing on an idle capture.
    pub fn stop(&mut self) -> (done: Result<Shutdown, PlatformError>)
        ensures
            done is Ok,
            (final(self)@, done->Ok_0) == stopped(old(self)@),
    {
        Ok(self.link.release())
    }
}

} // verus!

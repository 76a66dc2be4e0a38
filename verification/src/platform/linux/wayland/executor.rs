//! Injection through the remote-desktop portal.
//!
//! [`LinuxWaylandExecutor`] is the caller's half: `execute` lowers an action
//! to an [`InjectionCmd`] and queues it without blocking. The worker's half is
//! [`ExecutorSession`], the course of the portal session from connecting to
//! the last queued command.

use crate::platform::linux::keycodes::evdev_code;
use crate::platform::linux::keycodes::keycode_to_evdev;
use crate::platform::text_of;
use crate::platform::viewed;
use crate::platform::Action;
use crate::platform::ActionExecutor;
use crate::platform::KeyCode;
use crate::platform::KeyState;
use crate::platform::PlatformError;
use crate::platform::PlatformErrorView;
use tokio::sync::mpsc::error::TrySendError;
use tokio::sync::mpsc::Receiver;
use tokio::sync::mpsc::Sender;
use vstd::prelude::*;

verus! {

/// The sending half of tokio's bounded channel, `tokio::sync::mpsc::Sender`.
#[verifier::external_type_specification]
#[verifier::external_body]
#[verifier::reject_recursive_types(T)]
pub struct ExSender<T>(tokio::sync::mpsc::Sender<T>);

/// The receiving half of tokio's bounded channel, `tokio::sync::mpsc::Receiver`.
#[verifier::external_type_specification]
#[verifier::external_body]
#[verifier::reject_recursive_types(T)]
pub struct ExReceiver<T>(tokio::sync::mpsc::Receiver<T>);

/// One key injection, queued from `execute` to the session worker.
#[derive(Debug, Clone, Copy, PartialEq, Eq, Structural)]
pub struct InjectionCmd {
    /// Linux evdev code, the numbering the portal expects.
    pub keycode: i32,
    /// Whether the key goes down or up.
    pub state: KeyState,
}

/// How many injections may wait in the queue. Far above any typing rate.
pub const CMD_CAPACITY: usize = 256;

/// What became of an injection handed to the queue.
#[derive(Debug, Clone, Copy, PartialEq, Eq, Structural)]
pub enum QueueOutcome {
    /// The worker will see it.
    Queued,
    /// The queue was full: the injection is lost.
    Full,
    /// The worker is gone.
    Closed,
}

/// How many injections the queue behind a sending half was made to hold:
/// what `tokio::sync::mpsc::Sender::max_capacity` returns. It is fixed when
/// the queue is opened and stays the same however full the queue is.
pub uninterp spec fn queue_bound(queue: Sender<InjectionCmd>) -> usize;

/// Opens the queue between `execute` and the session worker.
///
/// Calls `tokio::sync::mpsc::channel`, which panics on a capacity of zero or
/// above its semaphore's limit, `usize::MAX >> 3`: both are excluded. The
/// queue is made to hold `capacity` injections; nothing else is claimed of
/// the two halves.
#[verifier::external_body]
fn command_channel(capacity: usize) -> (ends: (Sender<InjectionCmd>, Receiver<InjectionCmd>))
    requires
        0 < capacity <= usize::MAX / 8,
    ensures
        queue_bound(ends.0) == capacity,
{
    tokio::sync::mpsc::channel(capacity)
}

/// Hands one injection to the queue without waiting.
///
/// Calls `tokio::sync::mpsc::Sender::try_send` and names its three results.
/// Which one comes back depends on the worker, so nothing is claimed of it.
#[verifier::external_body]
fn try_queue(queue: &Sender<InjectionCmd>, cmd: InjectionCmd) -> (outcome: QueueOutcome) {
    match queue.try_send(cmd) {
        Ok(()) => QueueOutcome::Queued,
        Err(TrySendError::Full(_)) => QueueOutcome::Full,
        Err(TrySendError::Closed(_)) => QueueOutcome::Closed,
    }
}

/// The injection that a transition of `key` is lowered to.
pub open spec fn injection_cmd(key: KeyCode, state: KeyState) -> InjectionCmd {
    InjectionCmd { keycode: evdev_code(key) as i32, state }
}

/// The injection that `action` is lowered to: none unless it is `InjectKey`.
pub open spec fn lowered(action: Action) -> Option<InjectionCmd> {
    match action.injection() {
        Some((key, state)) => Some(injection_cmd(key, state)),
        None => None,
    }
}

/// What `execute` returns for each fate of the queued injection. A full queue
/// drops the injection and is no error; only a closed one is.
pub open spec fn settled(outcome: QueueOutcome) -> Result<(), PlatformErrorView> {
    match outcome {
        QueueOutcome::Queued | QueueOutcome::Full => Ok(()),
        QueueOutcome::Closed => Err(PlatformErrorView::Other("executor session closed"@)),
    }
}

/// Lowers `action` to the injection to queue. `None` means that `execute`
/// succeeds at once and the queue is not touched: for every action but
/// `InjectKey`.
pub fn lower_action(action: &Action) -> (cmd: Option<InjectionCmd>)
    ensures
        cmd == lowered(*action),
        action.injection() is None ==> cmd is None,
{
    match action.injection() {
        Some((key, state)) => {
            let code = keycode_to_evdev(key);
            Some(InjectionCmd { keycode: code as i32, state })
        },
        None => None,
    }
}

/// Turns the fate of a queued injection into the result of `execute`.
pub fn settle(outcome: QueueOutcome) -> (done: Result<(), PlatformError>)
    ensures
        viewed(done) == settled(outcome),
{
    match outcome {
        QueueOutcome::Queued => Ok(()),
        QueueOutcome::Full => Ok(()),
        QueueOutcome::Closed => Err(PlatformError::other("executor session closed")),
    }
}

/// Injects key events through the remote-desktop portal.
///
/// Holds the sending half of the queue; the session worker holds the other.
pub struct LinuxWaylandExecutor {
    cmd_tx: Sender<InjectionCmd>,
}

impl LinuxWaylandExecutor {
    /// The sending half that the executor queues to.
    pub closed spec fn queue(&self) -> Sender<InjectionCmd> {
        self.cmd_tx
    }

    /// Creates the executor and the receiving half of its queue, which the
    /// caller hands to the session worker. The queue is made to hold
    /// [`CMD_CAPACITY`] injections. Never fails.
    pub fn new() -> (made: Result<(LinuxWaylandExecutor, Receiver<InjectionCmd>), PlatformError>)
        ensures
            made matches Ok((executor, _)) && queue_bound(executor.queue()) == CMD_CAPACITY,
    {
        let (cmd_tx, cmd_rx) = command_channel(CMD_CAPACITY);
        Ok((LinuxWaylandExecutor { cmd_tx }, cmd_rx))
    }

    /// An executor that queues to `cmd_tx`.
    pub fn from_sender(cmd_tx: Sender<InjectionCmd>) -> (executor: LinuxWaylandExecutor)
        ensures
            executor.queue() == cmd_tx,
    {
        LinuxWaylandExecutor { cmd_tx }
    }
}

impl ActionExecutor for LinuxWaylandExecutor {
    /// Queues the injection that `action` asks for and returns at once.
    ///
    /// An action that asks for none succeeds without touching the queue. A
    /// full queue drops the injection silently; the one error is a queue whose
    /// worker is gone.
    fn execute(&self, action: &Action) -> (done: Result<(), PlatformError>)
        ensures
            done is Ok || viewed(done) == settled(QueueOutcome::Closed),
    {
        match lower_action(action) {
            Some(cmd) => settle(try_queue(&self.cmd_tx, cmd)),
            None => Ok(()),
        }
    }
}

/// Whether a character is white space in Unicode's sense: it has the
/// `White_Space` property. This is what std's `str::trim` removes.
pub open spec fn is_white_space(c: char) -> bool {
    let n = c as u32;
    ||| 0x0009 <= n <= 0x000D
    ||| n == 0x0020
    ||| n == 0x0085
    ||| n == 0x00A0
    ||| n == 0x1680
    ||| 0x2000 <= n <= 0x200A
    ||| n == 0x2028
    ||| n == 0x2029
    ||| n == 0x202F
    ||| n == 0x205F
    ||| n == 0x3000
}

/// Whether a text holds nothing but white space.
pub open spec fn is_blank(text: Seq<char>) -> bool {
    forall|i: int| 0 <= i < text.len() ==> is_white_space(#[trigger] text[i])
}

/// Whether `part` is a contiguous part of `text`.
pub open spec fn is_part_of(part: Seq<char>, text: Seq<char>) -> bool {
    exists|from: int, to: int|
        0 <= from <= to <= text.len() && part == #[trigger] text.subrange(from, to)
}

/// A text without the white space it begins with.
pub open spec fn without_leading_space(text: Seq<char>) -> Seq<char>
    decreases text.len(),
{
    if text.len() > 0 && is_white_space(text.first()) {
        without_leading_space(text.drop_first())
    } else {
        text
    }
}

/// A text without the white space it ends with.
pub open spec fn without_trailing_space(text: Seq<char>) -> Seq<char>
    decreases text.len(),
{
    if text.len() > 0 && is_white_space(text.last()) {
        without_trailing_space(text.drop_last())
    } else {
        text
    }
}

/// A text without its leading and trailing white space: what std's
/// `str::trim` makes of it.
pub open spec fn trimmed(text: Seq<char>) -> Seq<char> {
    without_trailing_space(without_leading_space(text))
}

/// Removes leading and trailing white space.
///
/// Calls std's `str::trim`, which returns the slice of the text that is left
/// when the white space at both ends is removed, white space taken in
/// Unicode's sense (the `White_Space` property).
#[verifier::external_body]
fn trim(text: &str) -> (core: &str)
    ensures
        core@ == trimmed(text@),
{
    text.trim()
}

/// What is left without leading white space is the end of the text from
/// some place on, before which all is white space, and it does not begin
/// with white space.
proof fn lemma_without_leading_space(text: Seq<char>) -> (from: int)
    ensures
        0 <= from <= text.len(),
        without_leading_space(text) == text.subrange(from, text.len() as int),
        forall|i: int| 0 <= i < from ==> is_white_space(#[trigger] text[i]),
        from < text.len() ==> !is_white_space(text[from]),
    decreases text.len(),
{
    if text.len() > 0 && is_white_space(text.first()) {
        let rest = text.drop_first();
        let from = lemma_without_leading_space(rest);
        assert(rest.subrange(from, rest.len() as int) == text.subrange(
            from + 1,
            text.len() as int,
        ));
        assert forall|i: int| 0 <= i < from + 1 implies is_white_space(#[trigger] text[i]) by {
            if i > 0 {
                assert(text[i] == rest[i - 1]);
            }
        }
        if from < rest.len() {
            assert(text[from + 1] == rest[from]);
        }
        from + 1
    } else {
        assert(text.subrange(0, text.len() as int) == text);
        0
    }
}

/// What is left without trailing white space is the beginning of the text
/// up to some place, from which on all is white space, and it does not end
/// with white space.
proof fn lemma_without_trailing_space(text: Seq<char>) -> (to: int)
    ensures
        0 <= to <= text.len(),
        without_trailing_space(text) == text.subrange(0, to),
        forall|i: int| to <= i < text.len() ==> is_white_space(#[trigger] text[i]),
        to > 0 ==> !is_white_space(text[to - 1]),
    decreases text.len(),
{
    if text.len() > 0 && is_white_space(text.last()) {
        let rest = text.drop_last();
        let to = lemma_without_trailing_space(rest);
        assert(rest.subrange(0, to) == text.subrange(0, to));
        assert forall|i: int| to <= i < text.len() implies is_white_space(#[trigger] text[i]) by {
            if i < rest.len() {
                assert(text[i] == rest[i]);
            }
        }
        if to > 0 {
            assert(text[to - 1] == rest[to - 1]);
        }
        to
    } else {
        assert(text.subrange(0, text.len() as int) == text);
        text.len() as int
    }
}

/// What trimming does: the result is a contiguous part of the text. Nothing
/// is left of a text of nothing but white space. What is left has no white
/// space at either end, and a text that has none at either end is left
/// whole.
pub proof fn lemma_trimmed(text: Seq<char>)
    ensures
        is_part_of(trimmed(text), text),
        is_blank(text) ==> trimmed(text).len() == 0,
        trimmed(text).len() > 0 ==> !is_white_space(trimmed(text).first()) && !is_white_space(
            trimmed(text).last(),
        ),
        text.len() > 0 && !is_white_space(text.first()) && !is_white_space(text.last())
            ==> trimmed(text) == text,
{
    let from = lemma_without_leading_space(text);
    let tail = text.subrange(from, text.len() as int);
    let to = lemma_without_trailing_space(tail);
    assert(tail.subrange(0, to) == text.subrange(from, from + to));
    if is_blank(text) {
        if from < text.len() {
            assert(is_white_space(text[from]));
        }
    }
    if trimmed(text).len() > 0 {
        assert(trimmed(text).first() == text[from]);
        assert(trimmed(text).last() == tail[to - 1]);
    }
    if text.len() > 0 && !is_white_space(text.first()) && !is_white_space(text.last()) {
        if from > 0 {
            assert(is_white_space(text[0]));
        }
        if to < tail.len() {
            assert(is_white_space(tail[tail.len() - 1]));
            assert(tail[tail.len() - 1] == text[text.len() - 1]);
        }
        assert(text.subrange(0, text.len() as int) == text);
    }
}

/// The directory under the user's configuration directory that holds the
/// token file.
pub const TOKEN_DIR: &'static str = "pc-unifier";

/// The name of the token file.
pub const TOKEN_FILE: &'static str = "remote-desktop-token";

/// The configuration directory's name under the home directory.
pub const HOME_CONFIG_DIR: &'static str = ".config";

/// The texts of the segments of a path.
pub open spec fn segments_of(path: Vec<String>) -> Seq<Seq<char>> {
    path@.map_values(|segment: String| segment@)
}

/// Where the restore token is kept: a root, which is the value of an
/// environment variable as the OS gave it, and the segments of the path from
/// there.
#[derive(Debug, Clone, PartialEq, Eq)]
pub struct TokenPath<R> {
    pub root: R,
    pub segments: Vec<String>,
}

/// The path of the token file, from the values of `XDG_CONFIG_HOME` and
/// `HOME`: the first names the configuration directory if it is set, else
/// that directory lies under the second. With neither there is no path.
pub open spec fn token_path_for<R>(xdg_config_home: Option<R>, home: Option<R>) -> Option<
    (R, Seq<Seq<char>>),
> {
    match (xdg_config_home, home) {
        (Some(config), _) => Some((config, seq![TOKEN_DIR@, TOKEN_FILE@])),
        (None, Some(home)) => Some((home, seq![HOME_CONFIG_DIR@, TOKEN_DIR@, TOKEN_FILE@])),
        (None, None) => None,
    }
}

/// Returns where the restore token is kept, from the values of
/// `XDG_CONFIG_HOME` and `HOME`, each `None` if the variable is not set.
/// `None` if neither is set. The root is handed through as it came.
pub fn token_path<R>(xdg_config_home: Option<R>, home: Option<R>) -> (path: Option<TokenPath<R>>)
    ensures
        match path {
            Some(found) => Some((found.root, segments_of(found.segments))) == token_path_for(
                xdg_config_home,
                home,
            ),
            None => token_path_for(xdg_config_home, home) is None,
        },
{
    let mut segments: Vec<String> = Vec::new();
    let root = match (xdg_config_home, home) {
        (Some(config), _) => config,
        (None, Some(home)) => {
            segments.push(HOME_CONFIG_DIR.to_owned());
            home
        },
        (None, None) => {
            return None;
        },
    };
    segments.push(TOKEN_DIR.to_owned());
    segments.push(TOKEN_FILE.to_owned());
    proof {
        let expected = token_path_for(xdg_config_home, home).unwrap();
        assert(segments_of(segments) =~= expected.1);
    }
    Some(TokenPath { root, segments })
}

/// The restore token in a file's trimmed contents: the contents themselves,
/// unless nothing is left of them.
pub open spec fn token_in(trimmed_contents: Seq<char>) -> Option<Seq<char>> {
    if trimmed_contents.len() == 0 {
        None
    } else {
        Some(trimmed_contents)
    }
}

/// The restore token that a token file yields. A file that is absent or
/// unreadable (`None`) yields none, and so does one with nothing but white
/// space in it.
pub open spec fn restore_token_in(contents: Option<&str>) -> Option<Seq<char>> {
    match contents {
        Some(text) => token_in(trimmed(text@)),
        None => None,
    }
}

/// Takes the restore token from the trimmed contents of the token file:
/// `None` if they are empty.
pub fn token_from_trimmed(trimmed_contents: &str) -> (token: Option<String>)
    ensures
        text_of(token) == token_in(trimmed_contents@),
{
    if trimmed_contents.is_empty() {
        None
    } else {
        Some(trimmed_contents.to_owned())
    }
}

/// Takes the restore token from what was read of the token file, `None` if
/// the file is absent or unreadable. Neither that nor a file without a token
/// is an error: the portal will prompt afresh.
///
/// A file of nothing but white space holds no token. A token is a part of
/// the file, without white space at either end; a file without white space
/// at either end is its own token.
pub fn load_restore_token(contents: Option<&str>) -> (token: Option<String>)
    ensures
        text_of(token) == restore_token_in(contents),
        contents is None ==> token is None,
        contents matches Some(text) && is_blank(text@) ==> token is None,
        token matches Some(found) ==> contents matches Some(text) && found@.len() > 0
            && is_part_of(found@, text@) && !is_white_space(found@.first()) && !is_white_space(
            found@.last(),
        ),
        contents matches Some(text) ==> (text@.len() > 0 && !is_white_space(text@.first())
            && !is_white_space(text@.last()) ==> text_of(token) == Some(text@)),
{
    match contents {
        Some(text) => {
            proof {
                lemma_trimmed(text@);
            }
            token_from_trimmed(trim(text))
        },
        None => None,
    }
}

/// A token file with nothing but white space in it is treated like an
/// absent one: it yields what no file yields, no token.
pub proof fn lemma_blank_file_is_like_no_file(text: &str)
    requires
        is_blank(text@),
    ensures
        restore_token_in(Some(text)) == restore_token_in(None),
{
    lemma_trimmed(text@);
}

/// The injection carries the key's evdev code unchanged: every code fits
/// the portal's signed number.
pub proof fn lemma_injection_keeps_the_code(key: KeyCode, state: KeyState)
    ensures
        injection_cmd(key, state).keycode == evdev_code(key),
        injection_cmd(key, state).state == state,
{
}

/// Only `InjectKey` reaches the queue: every other action is lowered to no
/// injection, and `execute` returns success for it.
pub proof fn lemma_only_inject_key_is_queued(action: Action)
    requires
        !(action is InjectKey),
    ensures
        lowered(action) is None,
{
}

/// Where an executor session stands: which report the worker waits for.
#[derive(Debug, Clone, Copy, PartialEq, Eq, Structural)]
pub enum ExecutorPhase {
    /// Nothing was requested yet.
    Unopened,
    /// Waiting for the connection to the portal.
    Connecting,
    /// Waiting for the session.
    CreatingSession,
    /// Waiting for the saved restore token.
    LoadingToken,
    /// Waiting for the keyboard to be selected.
    SelectingDevices,
    /// Waiting for the session to start, which may prompt the user.
    Starting,
    /// Waiting for the new restore token to be saved.
    SavingToken,
    /// Waiting for the next queued injection.
    Serving,
    /// Waiting for an injection to be carried out.
    Injecting,
    /// The session is over.
    Closed,
}

/// What the worker reports back after each request.
#[derive(Debug, Clone, PartialEq, Eq)]
pub enum ExecutorEvent {
    /// The worker is up.
    Begin,
    /// The request succeeded.
    Completed,
    /// The token file was looked up; `restore_token` is what it holds, if anything.
    TokenLoaded { restore_token: Option<String> },
    /// The session started; `restore_token` is the token the portal granted, if any.
    Started { restore_token: Option<String> },
    /// An injection was taken from the queue.
    Command(InjectionCmd),
    /// The queue is closed: the executor was dropped.
    QueueClosed,
    /// The request failed.
    Failed,
}

/// How an executor session ended.
#[derive(Debug, Clone, Copy, PartialEq, Eq, Structural)]
pub enum ExecutorEnd {
    /// The queue was closed and every queued injection was served.
    Drained,
    /// The session failed before it served anything.
    Failed,
}

/// What the worker is asked to do next.
#[derive(Debug, Clone, PartialEq, Eq)]
pub enum ExecutorRequest {
    /// Connect to the portal.
    Connect,
    /// Create a session.
    CreateSession,
    /// Look up the saved restore token.
    LoadToken,
    /// Select the keyboard, replaying `restore_token` to skip the prompt, and
    /// ask for a grant that lasts until the user revokes it.
    SelectKeyboard { restore_token: Option<String> },
    /// Start the session.
    Start,
    /// Save the restore token that the portal granted.
    SaveToken(String),
    /// Wait for the next queued injection.
    NextCommand,
    /// Carry out an injection.
    Inject(InjectionCmd),
    /// Leave.
    Finish(ExecutorEnd),
}

impl ExecutorPhase {
    /// Whether `event` is a report that lets the session leave this phase for
    /// another than `Closed` by failure. Saving the token and injecting are
    /// best effort: any report will do.
    pub open spec fn is_completed_by(self, event: ExecutorEvent) -> bool {
        match self {
            ExecutorPhase::Unopened => event is Begin,
            ExecutorPhase::LoadingToken => event is TokenLoaded,
            ExecutorPhase::Starting => event is Started,
            ExecutorPhase::SavingToken | ExecutorPhase::Injecting => true,
            ExecutorPhase::Serving => event is Command || event is QueueClosed,
            ExecutorPhase::Closed => false,
            _ => event is Completed,
        }
    }

    /// The phase that follows when `event` completes this one.
    pub open spec fn next(self, event: ExecutorEvent) -> ExecutorPhase {
        match self {
            ExecutorPhase::Unopened => ExecutorPhase::Connecting,
            ExecutorPhase::Connecting => ExecutorPhase::CreatingSession,
            ExecutorPhase::CreatingSession => ExecutorPhase::LoadingToken,
            ExecutorPhase::LoadingToken => ExecutorPhase::SelectingDevices,
            ExecutorPhase::SelectingDevices => ExecutorPhase::Starting,
            ExecutorPhase::Starting => if event->Started_restore_token is Some {
                ExecutorPhase::SavingToken
            } else {
                ExecutorPhase::Serving
            },
            ExecutorPhase::SavingToken | ExecutorPhase::Injecting => ExecutorPhase::Serving,
            ExecutorPhase::Serving => if event is Command {
                ExecutorPhase::Injecting
            } else {
                ExecutorPhase::Closed
            },
            ExecutorPhase::Closed => ExecutorPhase::Closed,
        }
    }

    /// The request that the worker carries out in this phase, when `event`
    /// led to it.
    pub open spec fn request(self, event: ExecutorEvent) -> ExecutorRequest {
        match self {
            ExecutorPhase::Unopened => ExecutorRequest::Finish(ExecutorEnd::Failed),
            ExecutorPhase::Connecting => ExecutorRequest::Connect,
            ExecutorPhase::CreatingSession => ExecutorRequest::CreateSession,
            ExecutorPhase::LoadingToken => ExecutorRequest::LoadToken,
            ExecutorPhase::SelectingDevices => ExecutorRequest::SelectKeyboard {
                restore_token: event->TokenLoaded_restore_token,
            },
            ExecutorPhase::Starting => ExecutorRequest::Start,
            ExecutorPhase::SavingToken => ExecutorRequest::SaveToken(
                event->Started_restore_token->0,
            ),
            ExecutorPhase::Serving => ExecutorRequest::NextCommand,
            ExecutorPhase::Injecting => ExecutorRequest::Inject(event->Command_0),
            ExecutorPhase::Closed => ExecutorRequest::Finish(ExecutorEnd::Drained),
        }
    }
}

/// The course of a session: the phase and the request that follow `event`
/// in `phase`.
///
/// The report that completes a phase leads to the next phase and its
/// request. Any other report ends the session as failed.
pub open spec fn executor_step(phase: ExecutorPhase, event: ExecutorEvent) -> (
    ExecutorPhase,
    ExecutorRequest,
) {
    if phase.is_completed_by(event) {
        (phase.next(event), phase.next(event).request(event))
    } else {
        (ExecutorPhase::Closed, ExecutorRequest::Finish(ExecutorEnd::Failed))
    }
}

/// The worker's view of one executor session.
pub struct ExecutorSession {
    phase: ExecutorPhase,
}

impl View for ExecutorSession {
    type V = ExecutorPhase;

    closed spec fn view(&self) -> ExecutorPhase {
        self.phase
    }
}

impl ExecutorSession {
    /// A session on which nothing was requested yet.
    pub fn new() -> (session: ExecutorSession)
        ensures
            session@ == ExecutorPhase::Unopened,
    {
        ExecutorSession { phase: ExecutorPhase::Unopened }
    }

    /// Where the session stands.
    pub fn phase(&self) -> (phase: ExecutorPhase)
        ensures
            phase == self@,
    {
        self.phase
    }

    /// Takes the worker's report and returns the next request.
    pub fn advance(&mut self, event: ExecutorEvent) -> (request: ExecutorRequest)
        ensures
            (final(self)@, request) == executor_step(old(self)@, event),
    {
        let (phase, request) = match (self.phase, event) {
            (ExecutorPhase::Unopened, ExecutorEvent::Begin) => (
                ExecutorPhase::Connecting,
                ExecutorRequest::Connect,
            ),
            (ExecutorPhase::Connecting, ExecutorEvent::Completed) => (
                ExecutorPhase::CreatingSession,
                ExecutorRequest::CreateSession,
            ),
            (ExecutorPhase::CreatingSession, ExecutorEvent::Completed) => (
                ExecutorPhase::LoadingToken,
                ExecutorRequest::LoadToken,
            ),
            (ExecutorPhase::LoadingToken, ExecutorEvent::TokenLoaded { restore_token }) => (
                ExecutorPhase::SelectingDevices,
                ExecutorRequest::SelectKeyboard { restore_token },
            ),
            (ExecutorPhase::SelectingDevices, ExecutorEvent::Completed) => (
                ExecutorPhase::Starting,
                ExecutorRequest::Start,
            ),
            (ExecutorPhase::Starting, ExecutorEvent::Started { restore_token: Some(token) }) => (
                ExecutorPhase::SavingToken,
                ExecutorRequest::SaveToken(token),
            ),
            (ExecutorPhase::Starting, ExecutorEvent::Started { restore_token: None }) => (
                ExecutorPhase::Serving,
                ExecutorRequest::NextCommand,
            ),
            (ExecutorPhase::SavingToken, _) => (
                ExecutorPhase::Serving,
                ExecutorRequest::NextCommand,
            ),
            (ExecutorPhase::Serving, ExecutorEvent::Command(cmd)) => (
                ExecutorPhase::Injecting,
                ExecutorRequest::Inject(cmd),
            ),
            (ExecutorPhase::Serving, ExecutorEvent::QueueClosed) => (
                ExecutorPhase::Closed,
                ExecutorRequest::Finish(ExecutorEnd::Drained),
            ),
            (ExecutorPhase::Injecting, _) => (ExecutorPhase::Serving, ExecutorRequest::NextCommand),
            _ => (ExecutorPhase::Closed, ExecutorRequest::Finish(ExecutorEnd::Failed)),
        };
        self.phase = phase;
        request
    }
}

/// An injection that fails does not end the session, and neither does a
/// token that cannot be saved: whatever is reported, the worker goes on to
/// the next queued injection.
pub proof fn lemma_failures_while_serving_are_absorbed(event: ExecutorEvent)
    ensures
        executor_step(ExecutorPhase::Injecting, event) == (
            ExecutorPhase::Serving,
            ExecutorRequest::NextCommand,
        ),
        executor_step(ExecutorPhase::SavingToken, event) == (
            ExecutorPhase::Serving,
            ExecutorRequest::NextCommand,
        ),
{
}

/// What is injected is what was queued: an injection is requested only for
/// the command that was just taken from the queue.
pub proof fn lemma_injects_what_was_queued(
    phase: ExecutorPhase,
    event: ExecutorEvent,
    cmd: InjectionCmd,
)
    requires
        executor_step(phase, event).1 == ExecutorRequest::Inject(cmd),
    ensures
        phase == ExecutorPhase::Serving,
        event == ExecutorEvent::Command(cmd),
{
}

/// The token that is replayed to the portal is the one that was loaded, and
/// the token that is saved is the one that the portal granted.
pub proof fn lemma_tokens_are_passed_on(phase: ExecutorPhase, event: ExecutorEvent)
    ensures
        executor_step(phase, event).1 matches ExecutorRequest::SelectKeyboard { restore_token }
            ==> phase == ExecutorPhase::LoadingToken && event == (ExecutorEvent::TokenLoaded {
            restore_token,
        }),
        executor_step(phase, event).1 matches ExecutorRequest::SaveToken(token) ==> phase
            == ExecutorPhase::Starting && event == (ExecutorEvent::Started {
            restore_token: Some(token),
        }),
{
}

/// The phase that a new session has reached after it took `reports`, one
/// after the other.
pub open spec fn phase_after(reports: Seq<ExecutorEvent>) -> ExecutorPhase
    decreases reports.len(),
{
    if reports.len() == 0 {
        ExecutorPhase::Unopened
    } else {
        executor_step(phase_after(reports.drop_last()), reports.last()).0
    }
}

/// The request that a new session answers the last of `reports` with.
pub open spec fn request_after(reports: Seq<ExecutorEvent>) -> ExecutorRequest
    recommends
        reports.len() > 0,
{
    executor_step(phase_after(reports.drop_last()), reports.last()).1
}

/// In every run of a session, the session is started right after the
/// keyboard was selected, and an injection is carried out right after it was
/// waited for: the queue is served one injection at a time.
pub proof fn lemma_requests_come_in_order(reports: Seq<ExecutorEvent>)
    requires
        reports.len() > 0,
    ensures
        request_after(reports) == ExecutorRequest::Start ==> reports.len() > 1 && request_after(
            reports.drop_last(),
        ) is SelectKeyboard,
        request_after(reports) is Inject ==> reports.len() > 1 && request_after(
            reports.drop_last(),
        ) == ExecutorRequest::NextCommand,
{
    let before = reports.drop_last();
    if request_after(reports) == ExecutorRequest::Start {
        assert(phase_after(before) == ExecutorPhase::SelectingDevices);
        assert(before.len() > 0);
    }
    if request_after(reports) is Inject {
        assert(phase_after(before) == ExecutorPhase::Serving);
        assert(before.len() > 0);
    }
}

/// The session ends when the queue is closed, and only a session that
/// served ends as drained.
pub proof fn lemma_session_ends_with_the_queue(phase: ExecutorPhase, event: ExecutorEvent)
    ensures
        executor_step(ExecutorPhase::Serving, ExecutorEvent::QueueClosed) == (
            ExecutorPhase::Closed,
            ExecutorRequest::Finish(ExecutorEnd::Drained),
        ),
        executor_step(phase, event).1 == ExecutorRequest::Finish(ExecutorEnd::Drained) ==> phase
            == ExecutorPhase::Serving && event is QueueClosed,
        executor_step(ExecutorPhase::Closed, event).0 == ExecutorPhase::Closed,
{
}

} // verus!

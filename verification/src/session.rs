//! Session protocol: the setup state machine, the connection lifecycle, the
//! command/response protocol and the error taxonomy.
//!
//! A session is established in a fixed order of steps — resolve the address,
//! open the transport, handshake, authenticate, open an interactive shell,
//! read up to the first prompt, replace the remote prompt with a private
//! sentinel and drain twice to stabilise.  Each step is outside work; its
//! outcome is fed to [`setup_advance`], which decides the next stage or the
//! failure.  The coarse lifecycle `Connecting → Authenticating → ShellReady →
//! (Idle ⇄ Executing) → Closed`, with `Failed` absorbing, is the [`Phase`]
//! relation, and the setup machine is proved to respect it.

use vstd::prelude::*;

verus! {

/// How a connection authenticates, fixed at connection setup.
pub enum Authentication {
    Password { user: String, password: String },
    Key {
        user: String,
        private_key_path: String,
        public_key_path: Option<String>,
        passphrase: Option<String>,
    },
}

/// One unit of work submitted to a session: exactly one command is in flight
/// per session at any time.
pub enum Command {
    Execute { text: String, prompt_override: Option<String>, include_prompt: Option<bool> },
    SendFile { source: String, dest: String },
    SetPrompt { pattern: String },
    Close,
}

/// The reply to a command, correlated one to one with the command.
pub enum Response {
    Text(String),
    Bool(bool),
    Failure(String),
}

/// Why session setup failed.
pub enum SetupError {
    /// The target address did not parse.
    AddressInvalid(String),
    /// Opening the transport (or the transport session itself) failed.
    TransportError(String),
    /// The protocol handshake failed.
    HandshakeError(String),
    /// Authentication was rejected.
    AuthError(String),
}

/// The message a setup failure reports: a fixed prefix for the step that
/// failed, then the underlying error text.
pub open spec fn spec_setup_error_message(e: SetupError) -> Seq<char> {
    match e {
        SetupError::AddressInvalid(d) => "Invalid ip address: "@ + d@,
        SetupError::TransportError(d) => "Tcp connection error: "@ + d@,
        SetupError::HandshakeError(d) => "Handshake error: "@ + d@,
        SetupError::AuthError(d) => "Authentication error: "@ + d@,
    }
}

impl SetupError {
    /// The error line reported to the console and stored in the handle.
    pub fn message(&self) -> (m: String)
        ensures
            m@ == spec_setup_error_message(*self),
    {
        match self {
            SetupError::AddressInvalid(d) => String::from_str("Invalid ip address: ").concat(
                d.as_str(),
            ),
            SetupError::TransportError(d) => String::from_str("Tcp connection error: ").concat(
                d.as_str(),
            ),
            SetupError::HandshakeError(d) => String::from_str("Handshake error: ").concat(
                d.as_str(),
            ),
            SetupError::AuthError(d) => String::from_str("Authentication error: ").concat(
                d.as_str(),
            ),
        }
    }
}

/// Where session setup stands.  Setup runs the stages in order; any failure
/// before the shell is stable is terminal.
pub enum SetupStage {
    /// Parsing and validating the target address.
    ResolvingAddress,
    /// Opening the transport, under the bounded connect timeout.
    OpeningTransport,
    /// Performing the protocol handshake.
    Handshaking,
    /// Authenticating with the supplied method.
    Authenticating,
    /// Opening the interactive pseudo-terminal channel and starting a shell.
    OpeningShell,
    /// Reading output up to the first (native, possibly ambiguous) prompt.
    AwaitingFirstPrompt,
    /// Overwriting the remote prompt variable with the private sentinel.
    SettingSentinel,
    /// First drain of residual output up to the sentinel prompt.
    DrainingFirst,
    /// Second drain, to stabilise.
    DrainingSecond,
    /// Setup succeeded; the session accepts commands.
    Ready,
    /// Setup failed; the reason is recorded for the handle.
    Failed(SetupError),
}

/// The outcome of the outside work one setup stage asked for.
pub enum StepOutcome {
    Success,
    Failure(String),
}

/// The transition table of session setup: each stage advances to the next on
/// success and fails with the error of its step otherwise.  `Ready` and
/// `Failed` are terminal and absorb every outcome.
pub open spec fn spec_setup_advance(stage: SetupStage, outcome: StepOutcome) -> SetupStage {
    match (stage, outcome) {
        (SetupStage::ResolvingAddress, StepOutcome::Success) => SetupStage::OpeningTransport,
        (SetupStage::ResolvingAddress, StepOutcome::Failure(d)) => SetupStage::Failed(
            SetupError::AddressInvalid(d),
        ),
        (SetupStage::OpeningTransport, StepOutcome::Success) => SetupStage::Handshaking,
        (SetupStage::OpeningTransport, StepOutcome::Failure(d)) => SetupStage::Failed(
            SetupError::TransportError(d),
        ),
        (SetupStage::Handshaking, StepOutcome::Success) => SetupStage::Authenticating,
        (SetupStage::Handshaking, StepOutcome::Failure(d)) => SetupStage::Failed(
            SetupError::HandshakeError(d),
        ),
        (SetupStage::Authenticating, StepOutcome::Success) => SetupStage::OpeningShell,
        (SetupStage::Authenticating, StepOutcome::Failure(d)) => SetupStage::Failed(
            SetupError::AuthError(d),
        ),
        (SetupStage::OpeningShell, StepOutcome::Success) => SetupStage::AwaitingFirstPrompt,
        (SetupStage::OpeningShell, StepOutcome::Failure(d)) => SetupStage::Failed(
            SetupError::TransportError(d),
        ),
        (SetupStage::AwaitingFirstPrompt, StepOutcome::Success) => SetupStage::SettingSentinel,
        (SetupStage::AwaitingFirstPrompt, StepOutcome::Failure(d)) => SetupStage::Failed(
            SetupError::TransportError(d),
        ),
        (SetupStage::SettingSentinel, StepOutcome::Success) => SetupStage::DrainingFirst,
        (SetupStage::SettingSentinel, StepOutcome::Failure(d)) => SetupStage::Failed(
            SetupError::TransportError(d),
        ),
        (SetupStage::DrainingFirst, StepOutcome::Success) => SetupStage::DrainingSecond,
        (SetupStage::DrainingFirst, StepOutcome::Failure(d)) => SetupStage::Failed(
            SetupError::TransportError(d),
        ),
        (SetupStage::DrainingSecond, StepOutcome::Success) => SetupStage::Ready,
        (SetupStage::DrainingSecond, StepOutcome::Failure(d)) => SetupStage::Failed(
            SetupError::TransportError(d),
        ),
        (SetupStage::Ready, _) => SetupStage::Ready,
        (SetupStage::Failed(e), _) => SetupStage::Failed(e),
    }
}

/// Advances the setup machine by the outcome of the current stage's step.
pub fn setup_advance(stage: SetupStage, outcome: StepOutcome) -> (next: SetupStage)
    ensures
        next == spec_setup_advance(stage, outcome),
{
    match (stage, outcome) {
        (SetupStage::ResolvingAddress, StepOutcome::Success) => SetupStage::OpeningTransport,
        (SetupStage::ResolvingAddress, StepOutcome::Failure(d)) => SetupStage::Failed(
            SetupError::AddressInvalid(d),
        ),
        (SetupStage::OpeningTransport, StepOutcome::Success) => SetupStage::Handshaking,
        (SetupStage::OpeningTransport, StepOutcome::Failure(d)) => SetupStage::Failed(
            SetupError::TransportError(d),
        ),
        (SetupStage::Handshaking, StepOutcome::Success) => SetupStage::Authenticating,
        (SetupStage::Handshaking, StepOutcome::Failure(d)) => SetupStage::Failed(
            SetupError::HandshakeError(d),
        ),
        (SetupStage::Authenticating, StepOutcome::Success) => SetupStage::OpeningShell,
        (SetupStage::Authenticating, StepOutcome::Failure(d)) => SetupStage::Failed(
            SetupError::AuthError(d),
        ),
        (SetupStage::OpeningShell, StepOutcome::Success) => SetupStage::AwaitingFirstPrompt,
        (SetupStage::OpeningShell, StepOutcome::Failure(d)) => SetupStage::Failed(
            SetupError::TransportError(d),
        ),
        (SetupStage::AwaitingFirstPrompt, StepOutcome::Success) => SetupStage::SettingSentinel,
        (SetupStage::AwaitingFirstPrompt, StepOutcome::Failure(d)) => SetupStage::Failed(
            SetupError::TransportError(d),
        ),
        (SetupStage::SettingSentinel, StepOutcome::Success) => SetupStage::DrainingFirst,
        (SetupStage::SettingSentinel, StepOutcome::Failure(d)) => SetupStage::Failed(
            SetupError::TransportError(d),
        ),
        (SetupStage::DrainingFirst, StepOutcome::Success) => SetupStage::DrainingSecond,
        (SetupStage::DrainingFirst, StepOutcome::Failure(d)) => SetupStage::Failed(
            SetupError::TransportError(d),
        ),
        (SetupStage::DrainingSecond, StepOutcome::Success) => SetupStage::Ready,
        (SetupStage::DrainingSecond, StepOutcome::Failure(d)) => SetupStage::Failed(
            SetupError::TransportError(d),
        ),
        (SetupStage::Ready, _) => SetupStage::Ready,
        (SetupStage::Failed(e), _) => SetupStage::Failed(e),
    }
}

/// The command the remote shell is sent to replace its prompt variable with
/// the private sentinel, removing the ambiguity of native prompts.
pub fn sentinel_assignment() -> (s: &'static str)
    ensures
        s@ == "PS1=qwerty\n"@,
{
    "PS1=qwerty\n"
}

/// The prompt pattern that matches the sentinel.
pub fn sentinel_pattern() -> (s: &'static str)
    ensures
        s@ == "qwerty"@,
{
    "qwerty"
}

/// The lifecycle state of a connection, held by the handle.  `Failed` carries
/// the stored error message and is permanent.
pub enum ConnectionState {
    Connecting,
    Authenticating,
    ShellReady,
    Idle,
    Executing,
    Closed,
    Failed(String),
}

/// A lifecycle state with the failure payload abstracted away, for stating
/// which transitions the lifecycle allows.
pub enum Phase {
    Connecting,
    Authenticating,
    ShellReady,
    Idle,
    Executing,
    Closed,
    Failed,
}

/// The phase a connection state belongs to.
pub open spec fn phase_of(s: ConnectionState) -> Phase {
    match s {
        ConnectionState::Connecting => Phase::Connecting,
        ConnectionState::Authenticating => Phase::Authenticating,
        ConnectionState::ShellReady => Phase::ShellReady,
        ConnectionState::Idle => Phase::Idle,
        ConnectionState::Executing => Phase::Executing,
        ConnectionState::Closed => Phase::Closed,
        ConnectionState::Failed(_) => Phase::Failed,
    }
}

/// The transitions the lifecycle allows: setup advances `Connecting →
/// Authenticating → ShellReady → Idle`, commands alternate `Idle ⇄ Executing`,
/// `Close` ends `Idle → Closed`, and `Failed` is reachable from the three
/// setup phases.  `Closed` and `Failed` are terminal, and staying put is
/// always allowed.
pub open spec fn phase_step_allowed(pre: Phase, post: Phase) -> bool {
    ||| pre == post
    ||| (pre is Connecting && (post is Authenticating || post is Failed))
    ||| (pre is Authenticating && (post is ShellReady || post is Failed))
    ||| (pre is ShellReady && (post is Idle || post is Failed))
    ||| (pre is Idle && (post is Executing || post is Closed))
    ||| (pre is Executing && post is Idle)
}

/// The phase each setup stage runs in.
pub open spec fn stage_phase(stage: SetupStage) -> Phase {
    match stage {
        SetupStage::ResolvingAddress => Phase::Connecting,
        SetupStage::OpeningTransport => Phase::Connecting,
        SetupStage::Handshaking => Phase::Connecting,
        SetupStage::Authenticating => Phase::Authenticating,
        SetupStage::OpeningShell => Phase::ShellReady,
        SetupStage::AwaitingFirstPrompt => Phase::ShellReady,
        SetupStage::SettingSentinel => Phase::ShellReady,
        SetupStage::DrainingFirst => Phase::ShellReady,
        SetupStage::DrainingSecond => Phase::ShellReady,
        SetupStage::Ready => Phase::Idle,
        SetupStage::Failed(_) => Phase::Failed,
    }
}

/// Every transition of the setup machine is one the connection lifecycle
/// allows: setup only ever moves forward through `Connecting`,
/// `Authenticating` and `ShellReady` into `Idle`, or into the absorbing
/// `Failed` phase.
pub proof fn lemma_setup_respects_lifecycle(stage: SetupStage, outcome: StepOutcome)
    ensures
        phase_step_allowed(stage_phase(stage), stage_phase(spec_setup_advance(stage, outcome))),
{
}

/// `Closed` and `Failed` are terminal: once a connection reaches either
/// phase, every transition the lifecycle allows leaves it there.  Together
/// with each operation's guarantee that its step is allowed, a failed
/// connection stays failed — its stored error is returned forever.
pub proof fn lemma_terminal_phases_are_permanent(pre: Phase, post: Phase)
    requires
        phase_step_allowed(pre, post),
        pre is Closed || pre is Failed,
    ensures
        post == pre,
{
}

/// The handle-level result of a response, as `(failed, text)`.  A `Text`
/// response is successful output; a `Failure` carries its message.  A
/// `Bool` response reports plain success or failure with no text: success
/// maps to `(false, "")`.
pub fn response_to_result(r: Response) -> (t: (bool, String))
    ensures
        match r {
            Response::Text(o) => t.0 == false && t.1@ == o@,
            Response::Bool(b) => t.0 == !b && t.1@ == Seq::<char>::empty(),
            Response::Failure(e) => t.0 == true && t.1@ == e@,
        },
{
    match r {
        Response::Text(o) => (false, o),
        Response::Bool(b) => (!b, String::new()),
        Response::Failure(e) => (true, e),
    }
}

} // verus!

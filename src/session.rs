use vstd::prelude::*;

verus! {

/// Where sign-in stands.
#[derive(Clone, Copy, Debug, PartialEq, Eq, Structural)]
pub enum SessionState {
    /// Connecting with the stored (or a fresh) session.
    Connecting,
    /// A login code has been asked for the operator's phone number.
    RequestingCode,
    /// The operator's code has been submitted.
    AwaitingCode,
    /// The platform asked for the second factor, which has been submitted.
    AwaitingPassword,
    /// Signed in; the session is being written to its file.
    Saving,
    /// Usable. `sign_out` is set when the session could not be saved.
    Authenticated { sign_out: bool },
    /// Sign-in was refused; start-up ends with an error.
    Failed,
}

/// What the protocol client reported after the last action.
#[derive(Clone, Copy, Debug, PartialEq, Eq, Structural)]
pub enum SessionEvent {
    Connected { authorized: bool },
    CodeSent,
    CodeAccepted,
    PasswordRequired,
    PasswordAccepted,
    Saved,
    SaveFailed,
    Rejected,
}

/// What is to be done next.
#[derive(Clone, Copy, Debug, PartialEq, Eq, Structural)]
pub enum SessionAction {
    /// Ask the operator for the phone number and request a login code.
    RequestLoginCode,
    /// Ask the operator for the code and sign in with it.
    SubmitCode,
    /// Ask the operator for the password and check it.
    SubmitPassword,
    /// Write the session to its file.
    SaveSession,
    /// Sign-in is done: hand the connection to the caller.
    Proceed,
    /// Sign-in failed: end start-up with an error.
    Abort,
}

/// How the connection is released when the session's lifetime ends.
#[derive(Clone, Copy, Debug, PartialEq, Eq, Structural)]
pub enum Teardown {
    Disconnect,
    SignOutAndDisconnect,
}

/// The sign-in transition table.
pub open spec fn transition(state: SessionState, event: SessionEvent) -> (SessionState, SessionAction) {
    match (state, event) {
        (SessionState::Connecting, SessionEvent::Connected { authorized: true }) => (
            SessionState::Authenticated { sign_out: false },
            SessionAction::Proceed,
        ),
        (SessionState::Connecting, SessionEvent::Connected { authorized: false }) => (
            SessionState::RequestingCode,
            SessionAction::RequestLoginCode,
        ),
        (SessionState::RequestingCode, SessionEvent::CodeSent) => (
            SessionState::AwaitingCode,
            SessionAction::SubmitCode,
        ),
        (SessionState::AwaitingCode, SessionEvent::CodeAccepted) => (
            SessionState::Saving,
            SessionAction::SaveSession,
        ),
        (SessionState::AwaitingCode, SessionEvent::PasswordRequired) => (
            SessionState::AwaitingPassword,
            SessionAction::SubmitPassword,
        ),
        (SessionState::AwaitingPassword, SessionEvent::PasswordAccepted) => (
            SessionState::Saving,
            SessionAction::SaveSession,
        ),
        (SessionState::Saving, SessionEvent::Saved) => (
            SessionState::Authenticated { sign_out: false },
            SessionAction::Proceed,
        ),
        (SessionState::Saving, SessionEvent::SaveFailed) => (
            SessionState::Authenticated { sign_out: true },
            SessionAction::Proceed,
        ),
        (SessionState::Authenticated { sign_out }, _) => (
            SessionState::Authenticated { sign_out },
            SessionAction::Proceed,
        ),
        _ => (SessionState::Failed, SessionAction::Abort),
    }
}

/// How a session in `state` is released.
pub open spec fn teardown_of(state: SessionState) -> Teardown {
    match state {
        SessionState::Authenticated { sign_out: true } => Teardown::SignOutAndDisconnect,
        _ => Teardown::Disconnect,
    }
}

impl SessionState {
    /// The state before connecting.
    pub fn new() -> (r: Self)
        ensures
            r == SessionState::Connecting,
    {
        SessionState::Connecting
    }

    /// Takes the next event of sign-in and gives the new state with the action to perform.
    pub fn step(self, event: SessionEvent) -> (r: (SessionState, SessionAction))
        ensures
            r == transition(self, event),
    {
        match (self, event) {
            (SessionState::Connecting, SessionEvent::Connected { authorized }) => {
                if authorized {
                    (SessionState::Authenticated { sign_out: false }, SessionAction::Proceed)
                } else {
                    (SessionState::RequestingCode, SessionAction::RequestLoginCode)
                }
            },
            (SessionState::RequestingCode, SessionEvent::CodeSent) => (
                SessionState::AwaitingCode,
                SessionAction::SubmitCode,
            ),
            (SessionState::AwaitingCode, SessionEvent::CodeAccepted) => (
                SessionState::Saving,
                SessionAction::SaveSession,
            ),
            (SessionState::AwaitingCode, SessionEvent::PasswordRequired) => (
                SessionState::AwaitingPassword,
                SessionAction::SubmitPassword,
            ),
            (SessionState::AwaitingPassword, SessionEvent::PasswordAccepted) => (
                SessionState::Saving,
                SessionAction::SaveSession,
            ),
            (SessionState::Saving, SessionEvent::Saved) => (
                SessionState::Authenticated { sign_out: false },
                SessionAction::Proceed,
            ),
            (SessionState::Saving, SessionEvent::SaveFailed) => (
                SessionState::Authenticated { sign_out: true },
                SessionAction::Proceed,
            ),
            (SessionState::Authenticated { sign_out }, _) => (
                SessionState::Authenticated { sign_out },
                SessionAction::Proceed,
            ),
            _ => (SessionState::Failed, SessionAction::Abort),
        }
    }

    /// Whether the session is usable.
    pub fn is_authenticated(&self) -> (r: bool)
        ensures
            r == (*self is Authenticated),
    {
        match self {
            SessionState::Authenticated { .. } => true,
            _ => false,
        }
    }

    /// How the connection is released: with a remote sign-out exactly when the
    /// session could not be saved after sign-in.
    pub fn teardown(&self) -> (r: Teardown)
        ensures
            r == teardown_of(*self),
    {
        match self {
            SessionState::Authenticated { sign_out: true } => Teardown::SignOutAndDisconnect,
            _ => Teardown::Disconnect,
        }
    }
}

/// A session whose file could not be written after sign-in is signed out at
/// teardown; one that was written is only disconnected; so is one that was
/// already authorized and needed no sign-in.
pub proof fn lemma_teardown_follows_save(signed_in: SessionEvent)
    requires
        signed_in == SessionEvent::CodeAccepted || signed_in == SessionEvent::PasswordAccepted,
    ensures
        ({
            let via = if signed_in == SessionEvent::CodeAccepted {
                SessionState::AwaitingCode
            } else {
                SessionState::AwaitingPassword
            };
            let saving = transition(via, signed_in).0;
            &&& saving == SessionState::Saving
            &&& teardown_of(transition(saving, SessionEvent::SaveFailed).0)
                == Teardown::SignOutAndDisconnect
            &&& teardown_of(transition(saving, SessionEvent::Saved).0) == Teardown::Disconnect
        }),
        teardown_of(transition(SessionState::Connecting, SessionEvent::Connected { authorized: true }).0)
            == Teardown::Disconnect,
{
}

/// Once authenticated, no later event changes how the session is released.
pub proof fn lemma_teardown_is_stable(sign_out: bool, event: SessionEvent)
    ensures
        teardown_of(transition(SessionState::Authenticated { sign_out }, event).0)
            == teardown_of(SessionState::Authenticated { sign_out }),
{
}

} // verus!

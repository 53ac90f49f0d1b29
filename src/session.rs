//! The order of a run, as a state machine.
//!
//! The caller performs each [`Action`] (opening the connection, asking for a
//! password, running the remote setup, reading and appending to the remote
//! file) and hands back what came of it as an [`Event`]. [`Provisioner::step`]
//! decides what comes next. A run ends in [`Stage::Finished`] or
//! [`Stage::Failed`], and stays there.
use vstd::prelude::*;
use crate::authorized_keys::{contains, key_block, plan_update, KeyUpdate};
use crate::error::ProvisionError;
use crate::key::{key_of, parse_key};

verus! {

/// The port of the remote secure-shell service.
pub const SSH_PORT: u16 = 22;

/// The remote command that makes sure the key directory and file exist with
/// owner-only permissions. Every part of it may be repeated safely.
pub const SETUP_COMMAND: &'static str =
    "mkdir -p ~/.ssh && chmod 700 ~/.ssh && touch ~/.ssh/authorized_keys && chmod 600 ~/.ssh/authorized_keys";

/// The authorized-keys file, relative to the remote user's home directory.
pub const AUTHORIZED_KEYS_PATH: &'static str = ".ssh/authorized_keys";

/// How a successful run ended.
#[derive(Debug, Clone, Copy, PartialEq, Eq, Structural)]
pub enum Outcome {
    /// The key was in the remote file already; nothing was written.
    AlreadyPresent,
    /// The key was appended to the remote file.
    KeyAdded,
}

/// Where a run stands.
#[derive(Debug, Clone, Copy, PartialEq, Eq, Structural)]
pub enum Stage {
    /// Waiting for the local key file.
    LoadingKey,
    /// Waiting for the network connection.
    Connecting,
    /// Waiting for the secure-session negotiation.
    Handshaking,
    /// Waiting for agent authentication.
    AgentAuth,
    /// Waiting for the password to be typed.
    Prompting,
    /// Waiting for password authentication.
    PasswordAuth,
    /// Waiting for the session to report whether it is authenticated.
    Verifying,
    /// Waiting for the remote setup command to finish.
    SettingUp,
    /// Waiting for the remote file's content.
    Reading,
    /// Waiting for the key's block to be written.
    Appending,
    /// The run succeeded.
    Finished(Outcome),
    /// The run failed.
    Failed(ProvisionError),
}

/// What came of the last action.
#[derive(Debug)]
pub enum Event {
    /// The local key file's contents, or `None` when the file does not exist.
    KeyFile(Option<String>),
    Connected,
    ConnectFailed,
    HandshakeDone,
    HandshakeFailed,
    AgentAccepted,
    AgentRejected,
    PasswordEntered,
    PromptFailed,
    PasswordAccepted,
    PasswordRejected,
    /// Whether the session reports itself authenticated.
    AuthStatus(bool),
    SetupDone,
    SetupFailed,
    /// The remote file's whole content.
    Content(Vec<u8>),
    /// The remote file could not be opened; it counts as empty.
    FileMissing,
    ReadFailed,
    Written,
    WriteFailed,
}

/// What the caller is to do next.
#[derive(Debug, PartialEq, Eq)]
pub enum Action {
    /// Open a network connection to the host's secure-shell port.
    Connect,
    /// Negotiate the secure session.
    Handshake,
    /// Try authentication through the agent.
    TryAgent,
    /// Ask for the password, once.
    PromptPassword,
    /// Try authentication with the password that was typed.
    TryPassword,
    /// Ask the session whether it is authenticated.
    CheckAuthenticated,
    /// Run the setup command, drain its output and wait for the channel to close.
    RunSetup,
    /// Read the remote file in full.
    ReadKeys,
    /// Append these bytes to the remote file.
    AppendKeys(Vec<u8>),
    /// The run succeeded; tell the user how.
    Report(Outcome),
    /// The run failed; tell the user why.
    Abort(ProvisionError),
    /// The event did not fit the stage; the last action is still awaited.
    Wait,
    /// The run is over.
    Halt,
}

/// The model of an [`Event`].
pub enum EventView {
    KeyFile(Option<Seq<char>>),
    Connected,
    ConnectFailed,
    HandshakeDone,
    HandshakeFailed,
    AgentAccepted,
    AgentRejected,
    PasswordEntered,
    PromptFailed,
    PasswordAccepted,
    PasswordRejected,
    AuthStatus(bool),
    SetupDone,
    SetupFailed,
    Content(Seq<u8>),
    FileMissing,
    ReadFailed,
    Written,
    WriteFailed,
}

/// The model of an [`Action`].
pub enum ActionView {
    Connect,
    Handshake,
    TryAgent,
    PromptPassword,
    TryPassword,
    CheckAuthenticated,
    RunSetup,
    ReadKeys,
    AppendKeys(Seq<u8>),
    Report(Outcome),
    Abort(ProvisionError),
    Wait,
    Halt,
}

impl View for Event {
    type V = EventView;

    open spec fn view(&self) -> EventView {
        match self {
            Event::KeyFile(None) => EventView::KeyFile(None),
            Event::KeyFile(Some(c)) => EventView::KeyFile(Some(c@)),
            Event::Connected => EventView::Connected,
            Event::ConnectFailed => EventView::ConnectFailed,
            Event::HandshakeDone => EventView::HandshakeDone,
            Event::HandshakeFailed => EventView::HandshakeFailed,
            Event::AgentAccepted => EventView::AgentAccepted,
            Event::AgentRejected => EventView::AgentRejected,
            Event::PasswordEntered => EventView::PasswordEntered,
            Event::PromptFailed => EventView::PromptFailed,
            Event::PasswordAccepted => EventView::PasswordAccepted,
            Event::PasswordRejected => EventView::PasswordRejected,
            Event::AuthStatus(b) => EventView::AuthStatus(*b),
            Event::SetupDone => EventView::SetupDone,
            Event::SetupFailed => EventView::SetupFailed,
            Event::Content(b) => EventView::Content(b@),
            Event::FileMissing => EventView::FileMissing,
            Event::ReadFailed => EventView::ReadFailed,
            Event::Written => EventView::Written,
            Event::WriteFailed => EventView::WriteFailed,
        }
    }
}

impl View for Action {
    type V = ActionView;

    open spec fn view(&self) -> ActionView {
        match self {
            Action::Connect => ActionView::Connect,
            Action::Handshake => ActionView::Handshake,
            Action::TryAgent => ActionView::TryAgent,
            Action::PromptPassword => ActionView::PromptPassword,
            Action::TryPassword => ActionView::TryPassword,
            Action::CheckAuthenticated => ActionView::CheckAuthenticated,
            Action::RunSetup => ActionView::RunSetup,
            Action::ReadKeys => ActionView::ReadKeys,
            Action::AppendKeys(b) => ActionView::AppendKeys(b@),
            Action::Report(o) => ActionView::Report(*o),
            Action::Abort(e) => ActionView::Abort(*e),
            Action::Wait => ActionView::Wait,
            Action::Halt => ActionView::Halt,
        }
    }
}

/// The decisions of one run: where it stands, the key being installed, and
/// the remote user and host it was started with.
pub struct Provisioner {
    stage: Stage,
    key: Vec<u8>,
    user: Option<String>,
    host: Option<String>,
}

/// The model of a [`Provisioner`].
pub struct ProvisionerView {
    pub stage: Stage,
    pub key: Seq<u8>,
    pub user: Option<Seq<char>>,
    pub host: Option<Seq<char>>,
}

pub open spec fn opt_view(s: Option<String>) -> Option<Seq<char>> {
    match s {
        Some(t) => Some(t@),
        None => None,
    }
}

impl View for Provisioner {
    type V = ProvisionerView;

    closed spec fn view(&self) -> ProvisionerView {
        ProvisionerView {
            stage: self.stage,
            key: self.key@,
            user: opt_view(self.user),
            host: opt_view(self.host),
        }
    }
}

/// The same run, moved to another stage.
pub open spec fn at(m: ProvisionerView, stage: Stage) -> ProvisionerView {
    ProvisionerView { stage, ..m }
}

/// The same run, failed with `e`, and the action that reports it.
pub open spec fn fail(m: ProvisionerView, e: ProvisionError) -> (ProvisionerView, ActionView) {
    (at(m, Stage::Failed(e)), ActionView::Abort(e))
}

/// What the remote file's content `existing` leads to.
pub open spec fn after_read(m: ProvisionerView, existing: Seq<u8>) -> (ProvisionerView, ActionView) {
    if contains(existing, m.key) {
        (
            at(m, Stage::Finished(Outcome::AlreadyPresent)),
            ActionView::Report(Outcome::AlreadyPresent),
        )
    } else {
        (at(m, Stage::Appending), ActionView::AppendKeys(key_block(m.key)))
    }
}

/// One step of a run: the next state and action, given what came of the last action.
pub open spec fn next(m: ProvisionerView, e: EventView) -> (ProvisionerView, ActionView) {
    match m.stage {
        Stage::LoadingKey => match e {
            EventView::KeyFile(None) => fail(m, ProvisionError::KeyNotFound),
            EventView::KeyFile(Some(c)) => if key_of(c).len() == 0 {
                fail(m, ProvisionError::KeyEmpty)
            } else if m.user is None {
                fail(m, ProvisionError::MissingUser)
            } else if m.host is None {
                fail(m, ProvisionError::MissingHost)
            } else {
                (ProvisionerView { stage: Stage::Connecting, key: key_of(c), ..m }, ActionView::Connect)
            },
            _ => (m, ActionView::Wait),
        },
        Stage::Connecting => match e {
            EventView::Connected => (at(m, Stage::Handshaking), ActionView::Handshake),
            EventView::ConnectFailed => fail(m, ProvisionError::ConnectionError),
            _ => (m, ActionView::Wait),
        },
        Stage::Handshaking => match e {
            EventView::HandshakeDone => (at(m, Stage::AgentAuth), ActionView::TryAgent),
            EventView::HandshakeFailed => fail(m, ProvisionError::HandshakeError),
            _ => (m, ActionView::Wait),
        },
        Stage::AgentAuth => match e {
            EventView::AgentAccepted => (at(m, Stage::Verifying), ActionView::CheckAuthenticated),
            EventView::AgentRejected => (at(m, Stage::Prompting), ActionView::PromptPassword),
            _ => (m, ActionView::Wait),
        },
        Stage::Prompting => match e {
            EventView::PasswordEntered => (at(m, Stage::PasswordAuth), ActionView::TryPassword),
            EventView::PromptFailed => fail(m, ProvisionError::AuthenticationFailed),
            _ => (m, ActionView::Wait),
        },
        Stage::PasswordAuth => match e {
            EventView::PasswordAccepted => (at(m, Stage::Verifying), ActionView::CheckAuthenticated),
            EventView::PasswordRejected => fail(m, ProvisionError::AuthenticationFailed),
            _ => (m, ActionView::Wait),
        },
        Stage::Verifying => match e {
            EventView::AuthStatus(true) => (at(m, Stage::SettingUp), ActionView::RunSetup),
            EventView::AuthStatus(false) => fail(m, ProvisionError::AuthenticationFailed),
            _ => (m, ActionView::Wait),
        },
        Stage::SettingUp => match e {
            EventView::SetupDone => (at(m, Stage::Reading), ActionView::ReadKeys),
            EventView::SetupFailed => fail(m, ProvisionError::RemoteCommandError),
            _ => (m, ActionView::Wait),
        },
        Stage::Reading => match e {
            EventView::Content(existing) => after_read(m, existing),
            EventView::FileMissing => after_read(m, Seq::empty()),
            EventView::ReadFailed => fail(m, ProvisionError::RemoteFileError),
            _ => (m, ActionView::Wait),
        },
        Stage::Appending => match e {
            EventView::Written => (
                at(m, Stage::Finished(Outcome::KeyAdded)),
                ActionView::Report(Outcome::KeyAdded),
            ),
            EventView::WriteFailed => fail(m, ProvisionError::RemoteFileError),
            _ => (m, ActionView::Wait),
        },
        Stage::Finished(_) => (m, ActionView::Halt),
        Stage::Failed(_) => (m, ActionView::Halt),
    }
}

impl Provisioner {
    /// A run for the given remote user and host, waiting for the key file.
    pub fn new(user: Option<String>, host: Option<String>) -> (r: Provisioner)
        ensures
            r@.stage == Stage::LoadingKey,
            r@.key == Seq::<u8>::empty(),
            r@.user == opt_view(user),
            r@.host == opt_view(host),
    {
        Provisioner { stage: Stage::LoadingKey, key: Vec::new(), user, host }
    }

    /// Where the run stands.
    pub fn stage(&self) -> (r: Stage)
        ensures
            r == self@.stage,
    {
        self.stage
    }

    /// The key being installed, as bytes (empty until the key file is read).
    pub fn key(&self) -> (r: &[u8])
        ensures
            r@ == self@.key,
    {
        self.key.as_slice()
    }

    fn fail(&mut self, e: ProvisionError) -> (a: Action)
        ensures
            (final(self)@, a@) == fail(old(self)@, e),
    {
        self.stage = Stage::Failed(e);
        Action::Abort(e)
    }

    fn after_read(&mut self, existing: &[u8]) -> (a: Action)
        ensures
            (final(self)@, a@) == after_read(old(self)@, existing@),
    {
        match plan_update(existing, self.key.as_slice()) {
            KeyUpdate::AlreadyPresent => {
                self.stage = Stage::Finished(Outcome::AlreadyPresent);
                Action::Report(Outcome::AlreadyPresent)
            },
            KeyUpdate::Append(block) => {
                self.stage = Stage::Appending;
                Action::AppendKeys(block)
            },
        }
    }

    /// Takes what came of the last action and says what to do next.
    pub fn step(&mut self, event: Event) -> (a: Action)
        ensures
            (final(self)@, a@) == next(old(self)@, event@),
    {
        match self.stage {
            Stage::LoadingKey => match event {
                Event::KeyFile(None) => self.fail(ProvisionError::KeyNotFound),
                Event::KeyFile(Some(c)) => match parse_key(c.as_str()) {
                    Err(e) => self.fail(e),
                    Ok(k) => {
                        if self.user.is_none() {
                            self.fail(ProvisionError::MissingUser)
                        } else if self.host.is_none() {
                            self.fail(ProvisionError::MissingHost)
                        } else {
                            self.key = k;
                            self.stage = Stage::Connecting;
                            Action::Connect
                        }
                    },
                },
                _ => Action::Wait,
            },
            Stage::Connecting => match event {
                Event::Connected => {
                    self.stage = Stage::Handshaking;
                    Action::Handshake
                },
                Event::ConnectFailed => self.fail(ProvisionError::ConnectionError),
                _ => Action::Wait,
            },
            Stage::Handshaking => match event {
                Event::HandshakeDone => {
                    self.stage = Stage::AgentAuth;
                    Action::TryAgent
                },
                Event::HandshakeFailed => self.fail(ProvisionError::HandshakeError),
                _ => Action::Wait,
            },
            Stage::AgentAuth => match event {
                Event::AgentAccepted => {
                    self.stage = Stage::Verifying;
                    Action::CheckAuthenticated
                },
                Event::AgentRejected => {
                    self.stage = Stage::Prompting;
                    Action::PromptPassword
                },
                _ => Action::Wait,
            },
            Stage::Prompting => match event {
                Event::PasswordEntered => {
                    self.stage = Stage::PasswordAuth;
                    Action::TryPassword
                },
                Event::PromptFailed => self.fail(ProvisionError::AuthenticationFailed),
                _ => Action::Wait,
            },
            Stage::PasswordAuth => match event {
                Event::PasswordAccepted => {
                    self.stage = Stage::Verifying;
                    Action::CheckAuthenticated
                },
                Event::PasswordRejected => self.fail(ProvisionError::AuthenticationFailed),
                _ => Action::Wait,
            },
            Stage::Verifying => match event {
                Event::AuthStatus(true) => {
                    self.stage = Stage::SettingUp;
                    Action::RunSetup
                },
                Event::AuthStatus(false) => self.fail(ProvisionError::AuthenticationFailed),
                _ => Action::Wait,
            },
            Stage::SettingUp => match event {
                Event::SetupDone => {
                    self.stage = Stage::Reading;
                    Action::ReadKeys
                },
                Event::SetupFailed => self.fail(ProvisionError::RemoteCommandError),
                _ => Action::Wait,
            },
            Stage::Reading => match event {
                Event::Content(existing) => self.after_read(existing.as_slice()),
                Event::FileMissing => {
                    let empty: Vec<u8> = Vec::new();
                    self.after_read(empty.as_slice())
                },
                Event::ReadFailed => self.fail(ProvisionError::RemoteFileError),
                _ => Action::Wait,
            },
            Stage::Appending => match event {
                Event::Written => {
                    self.stage = Stage::Finished(Outcome::KeyAdded);
                    Action::Report(Outcome::KeyAdded)
                },
                Event::WriteFailed => self.fail(ProvisionError::RemoteFileError),
                _ => Action::Wait,
            },
            Stage::Finished(_) => Action::Halt,
            Stage::Failed(_) => Action::Halt,
        }
    }
}

} // verus!

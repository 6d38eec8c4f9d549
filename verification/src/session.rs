//! What a session asks of its surroundings, and what it is told in reply.
use crate::command::{BuildRequest, BuildRequestView, CommandLine, CommandLineView};
use crate::error::{SystemError, SystemErrorView};
use crate::installable::{Installable, InstallableView};
use crate::os_text::OsText;
use vstd::prelude::*;

verus! {

/// What a session asks to be done next.
#[derive(Debug, PartialEq, Eq)]
pub enum Action {
    /// Create a directory for temporary files whose name begins with `prefix`, to be kept until
    /// the session ends. Replies: `Directory`, `Failed`.
    CreateTempDir { prefix: String },
    /// Complete what the user named from the surroundings of `nh system`. Replies: `Resolved`,
    /// `Failed`.
    Resolve { installable: Installable },
    /// Find what to use when nothing was named. Replies: `Resolved` with an installable that is
    /// specified, `Failed`.
    FindDefault,
    /// Update the inputs of a flake, all of them if `input` is `None`. Replies: `Done`, `Failed`.
    Update { installable: Installable, input: Option<Vec<String>>, commit_lock_file: bool },
    /// Run a command and capture what it prints. Replies: `Captured`, `Failed`.
    QuerySystem { command: CommandLine },
    /// Determine the host name, `hostname` if it is given. Replies: `Hostname`, `Failed`.
    QueryHostname { hostname: Option<String> },
    /// Write an installable as arguments of a Nix command. Reply: `Arguments`.
    ListArguments { installable: Installable },
    /// Run a command to see whether it succeeds. Replies: `Done`, `Failed`.
    Evaluate { command: CommandLine },
    /// Build. Replies: `Done`, `Failed`.
    Build { request: BuildRequest },
    /// See whether a path exists. Reply: `Exists`.
    CheckPath { path: OsText },
    /// Show what differs between two configurations. Replies: `Done`, `Failed`.
    ShowDiff { before: OsText, after: OsText },
    /// Warn the user. Reply: `Done`.
    Warn { message: String },
    /// Ask the user a question. Replies: `Confirmed`, `Failed`.
    Confirm { question: String, default: bool },
    /// Read the effective user of the process. Reply: `User`.
    QueryUser,
    /// Run the command that activates a configuration. Replies: `Done`, `Failed`.
    Activate { command: CommandLine },
    /// Run a REPL. Replies: `Done`, `Failed`.
    OpenRepl { command: CommandLine },
    /// Nothing more: the session is over.
    Finish { outcome: Outcome },
}

/// What a session is told in reply to an [`Action`].
#[derive(Debug, PartialEq, Eq)]
pub enum Event {
    /// It was done.
    Done,
    /// It could not be done.
    Failed,
    /// The directory that was created.
    Directory { path: OsText },
    /// What was resolved or found.
    Resolved { installable: Installable },
    /// What a command printed, if it was captured.
    Captured { output: Option<String> },
    /// The host name.
    Hostname { hostname: String },
    /// The arguments that stand for an installable.
    Arguments { args: Vec<String> },
    /// Whether a path exists.
    Exists { exists: bool },
    /// What the user answered.
    Confirmed { confirmed: bool },
    /// The effective user of the process.
    User { uid: u32 },
}

/// The actions whose failure ends a session.
#[derive(Debug, Clone, Copy, PartialEq, Eq, Structural)]
pub enum Stage {
    CreateTempDir,
    Resolve,
    FindDefault,
    Update,
    QuerySystem,
    QueryHostname,
    Build,
    Confirm,
    Activate,
    OpenRepl,
}

impl Stage {
    /// What is said ahead of the failure itself, if anything.
    pub open spec fn spec_context(self) -> Option<Seq<char>> {
        match self {
            Stage::QuerySystem => Some("Failed to determine current Nix system"@),
            Stage::Build => Some("Failed to build System Manager configuration"@),
            Stage::Activate => Some("System Manager activation failed"@),
            _ => None,
        }
    }

    /// What is said ahead of the failure itself, if anything.
    pub fn context(self) -> (r: Option<String>)
        ensures
            r.deep_view() == self.spec_context(),
    {
        match self {
            Stage::QuerySystem => Some("Failed to determine current Nix system".to_owned()),
            Stage::Build => Some("Failed to build System Manager configuration".to_owned()),
            Stage::Activate => Some("System Manager activation failed".to_owned()),
            _ => None,
        }
    }
}

/// How a session ended.
#[derive(Debug, PartialEq, Eq)]
pub enum Outcome {
    /// What was requested was done.
    Success,
    /// Something that was asked for could not be done.
    Failed { stage: Stage },
    /// The request was refused.
    Refused { error: SystemError },
}

/// The content of an [`Outcome`].
#[verifier::ext_equal]
pub ghost enum OutcomeView {
    Success,
    Failed { stage: Stage },
    Refused { error: SystemErrorView },
}

impl View for Outcome {
    type V = OutcomeView;

    open spec fn view(&self) -> OutcomeView {
        match *self {
            Outcome::Success => OutcomeView::Success,
            Outcome::Failed { stage } => OutcomeView::Failed { stage },
            Outcome::Refused { error } => OutcomeView::Refused { error: error@ },
        }
    }
}

impl Clone for Outcome {
    fn clone(&self) -> (r: Self)
        ensures
            r@ == self@,
    {
        match self {
            Outcome::Success => Outcome::Success,
            Outcome::Failed { stage } => Outcome::Failed { stage: *stage },
            Outcome::Refused { error } => Outcome::Refused { error: error.clone() },
        }
    }
}

/// The content of an [`Action`].
#[verifier::ext_equal]
pub ghost enum ActionView {
    CreateTempDir { prefix: Seq<char> },
    Resolve { installable: InstallableView },
    FindDefault,
    Update {
        installable: InstallableView,
        input: Option<Seq<Seq<char>>>,
        commit_lock_file: bool,
    },
    QuerySystem { command: CommandLineView },
    QueryHostname { hostname: Option<Seq<char>> },
    ListArguments { installable: InstallableView },
    Evaluate { command: CommandLineView },
    Build { request: BuildRequestView },
    CheckPath { path: Seq<u8> },
    ShowDiff { before: Seq<u8>, after: Seq<u8> },
    Warn { message: Seq<char> },
    Confirm { question: Seq<char>, default: bool },
    QueryUser,
    Activate { command: CommandLineView },
    OpenRepl { command: CommandLineView },
    Finish { outcome: OutcomeView },
}

impl View for Action {
    type V = ActionView;

    open spec fn view(&self) -> ActionView {
        match *self {
            Action::CreateTempDir { prefix } => ActionView::CreateTempDir { prefix: prefix@ },
            Action::Resolve { installable } => ActionView::Resolve { installable: installable@ },
            Action::FindDefault => ActionView::FindDefault,
            Action::Update { installable, input, commit_lock_file } => ActionView::Update {
                installable: installable@,
                input: input.deep_view(),
                commit_lock_file,
            },
            Action::QuerySystem { command } => ActionView::QuerySystem { command: command@ },
            Action::QueryHostname { hostname } => ActionView::QueryHostname {
                hostname: hostname.deep_view(),
            },
            Action::ListArguments { installable } => ActionView::ListArguments {
                installable: installable@,
            },
            Action::Evaluate { command } => ActionView::Evaluate { command: command@ },
            Action::Build { request } => ActionView::Build { request: request@ },
            Action::CheckPath { path } => ActionView::CheckPath { path: path@ },
            Action::ShowDiff { before, after } => ActionView::ShowDiff {
                before: before@,
                after: after@,
            },
            Action::Warn { message } => ActionView::Warn { message: message@ },
            Action::Confirm { question, default } => ActionView::Confirm {
                question: question@,
                default,
            },
            Action::QueryUser => ActionView::QueryUser,
            Action::Activate { command } => ActionView::Activate { command: command@ },
            Action::OpenRepl { command } => ActionView::OpenRepl { command: command@ },
            Action::Finish { outcome } => ActionView::Finish { outcome: outcome@ },
        }
    }
}

/// Whether `event` is a reply to `action`.
pub open spec fn is_reply(action: ActionView, event: Event) -> bool {
    match action {
        ActionView::CreateTempDir { .. } => event is Directory || event is Failed,
        ActionView::Resolve { .. } => event is Resolved || event is Failed,
        ActionView::FindDefault => {
            ||| event is Resolved && !(event->installable is Unspecified)
            ||| event is Failed
        },
        ActionView::QuerySystem { .. } => event is Captured || event is Failed,
        ActionView::QueryHostname { .. } => event is Hostname || event is Failed,
        ActionView::ListArguments { .. } => event is Arguments,
        ActionView::CheckPath { .. } => event is Exists,
        ActionView::Warn { .. } => event is Done,
        ActionView::Confirm { .. } => event is Confirmed || event is Failed,
        ActionView::QueryUser => event is User,
        ActionView::Update { .. }
        | ActionView::Evaluate { .. }
        | ActionView::Build { .. }
        | ActionView::ShowDiff { .. }
        | ActionView::Activate { .. }
        | ActionView::OpenRepl { .. } => event is Done || event is Failed,
        ActionView::Finish { .. } => false,
    }
}

/// The stage that ends when `action` fails; `None` if a session goes on regardless.
pub open spec fn stage_of(action: ActionView) -> Option<Stage> {
    match action {
        ActionView::CreateTempDir { .. } => Some(Stage::CreateTempDir),
        ActionView::Resolve { .. } => Some(Stage::Resolve),
        ActionView::FindDefault => Some(Stage::FindDefault),
        ActionView::Update { .. } => Some(Stage::Update),
        ActionView::QuerySystem { .. } => Some(Stage::QuerySystem),
        ActionView::QueryHostname { .. } => Some(Stage::QueryHostname),
        ActionView::Build { .. } => Some(Stage::Build),
        ActionView::Confirm { .. } => Some(Stage::Confirm),
        ActionView::Activate { .. } => Some(Stage::Activate),
        ActionView::OpenRepl { .. } => Some(Stage::OpenRepl),
        _ => None,
    }
}

/// The content of an action tells its kind and all that it carries.
pub proof fn law_action_content_is_complete(action: Action)
    ensures
        match action {
            Action::CreateTempDir { prefix } => {
                action@ is CreateTempDir && action@->prefix == prefix@
            },
            Action::Resolve { installable } => {
                action@ is Resolve && action@->Resolve_installable == installable@
            },
            Action::FindDefault => action@ is FindDefault,
            Action::Update { installable, input, commit_lock_file } => {
                &&& action@ is Update
                &&& action@->Update_installable == installable@
                &&& action@->input is Some <==> input is Some
                &&& input is Some ==> action@->input->0 == input->0.deep_view()
                &&& action@->commit_lock_file == commit_lock_file
            },
            Action::QuerySystem { command } => {
                action@ is QuerySystem && action@->QuerySystem_command == command@
            },
            Action::QueryHostname { hostname } => {
                &&& action@ is QueryHostname
                &&& action@->hostname is Some <==> hostname is Some
                &&& hostname is Some ==> action@->hostname->0 == hostname->0@
            },
            Action::ListArguments { installable } => {
                action@ is ListArguments && action@->ListArguments_installable == installable@
            },
            Action::Evaluate { command } => {
                action@ is Evaluate && action@->Evaluate_command == command@
            },
            Action::Build { request } => action@ is Build && action@->request == request@,
            Action::CheckPath { path } => action@ is CheckPath && action@->path == path.bytes@,
            Action::ShowDiff { before, after } => {
                &&& action@ is ShowDiff
                &&& action@->before == before.bytes@
                &&& action@->after == after.bytes@
            },
            Action::Warn { message } => action@ is Warn && action@->message == message@,
            Action::Confirm { question, default } => {
                &&& action@ is Confirm
                &&& action@->question == question@
                &&& action@->default == default
            },
            Action::QueryUser => action@ is QueryUser,
            Action::Activate { command } => {
                action@ is Activate && action@->Activate_command == command@
            },
            Action::OpenRepl { command } => {
                action@ is OpenRepl && action@->OpenRepl_command == command@
            },
            Action::Finish { outcome } => {
                &&& action@ is Finish
                &&& match outcome {
                    Outcome::Success => action@->outcome is Success,
                    Outcome::Failed { stage } => {
                        action@->outcome is Failed && action@->outcome->stage == stage
                    },
                    Outcome::Refused { error } => {
                        action@->outcome is Refused && action@->outcome->error == error@
                    },
                }
            },
        },
{
}

/// Only the failures to name the system, to build and to activate are introduced, each by words of
/// its own.
pub proof fn law_three_failures_are_introduced(stage: Stage, other: Stage)
    ensures
        stage.spec_context() is Some <==> (stage == Stage::QuerySystem || stage == Stage::Build
            || stage == Stage::Activate),
        stage.spec_context() is Some && stage.spec_context() == other.spec_context() ==> stage
            == other,
{
    reveal_strlit("Failed to determine current Nix system");
    reveal_strlit("Failed to build System Manager configuration");
    reveal_strlit("System Manager activation failed");
    assert("Failed to determine current Nix system"@.len() == 38);
    assert("Failed to build System Manager configuration"@.len() == 44);
    assert("System Manager activation failed"@.len() == 32);
}

} // verus!

//! Building a configuration and, if that is wanted, activating it.
use crate::args::{DiffType, SystemRebuildArgs};
use crate::command::{BuildRequest, BuildRequestView, CommandLine, CommandLineView};
use crate::error::{SystemError, SystemErrorView};
use crate::installable::{Installable, InstallableView};
use crate::os_text::{path_join, OsText};
use crate::select::{select_installable, Choice, Selection, SelectionStepView, SelectionView};
use crate::session::{Action, ActionView, Event, Outcome, OutcomeView, Stage};
use crate::text::copy_strings;
use vstd::prelude::*;
use vstd::utf8::encode_utf8;

verus! {

/// Where the active configuration is found.
pub const SYSTEM_PROFILE: &'static str =
    "/nix/var/nix/profiles/system-manager-profiles/system-manager";

/// What a rebuild is for.
#[derive(Debug, Clone, Copy, PartialEq, Eq, Structural)]
pub enum SystemRebuildVariant {
    /// Build and activate.
    Switch,
    /// Build only.
    Build,
}

/// How far a rebuild has come. `out_path` is where the result is linked.
#[derive(Debug)]
enum RebuildStep {
    /// Waiting for a directory to link the result in.
    CreatingDir,
    /// Waiting for what the user named to be completed.
    Resolving { out_path: OsText },
    /// Waiting for something to use, since nothing was named.
    FindingDefault { out_path: OsText },
    /// Waiting for inputs to be updated.
    Updating { out_path: OsText, installable: Installable },
    /// Choosing what to build.
    Selecting { out_path: OsText, selection: Selection },
    /// Waiting for the build.
    Building { out_path: OsText, target: Installable },
    /// Waiting to hear whether a configuration is active.
    CheckingProfile { out_path: OsText },
    /// Waiting for the changes to be shown.
    ShowingDiff { out_path: OsText },
    /// Waiting for the user to be warned that there is nothing to ask.
    Warning,
    /// Waiting for the user to agree.
    Confirming { out_path: OsText },
    /// Waiting to hear who runs the process.
    ReadingUser { out_path: OsText },
    /// Waiting for the activation.
    Activating { out_path: OsText, elevate: bool },
    /// The rebuild is over.
    Finished { outcome: Outcome },
}

/// The content of the step that a [`Rebuild`] has reached.
#[verifier::ext_equal]
pub ghost enum RebuildStepView {
    CreatingDir,
    Resolving { out_path: Seq<u8> },
    FindingDefault { out_path: Seq<u8> },
    Updating { out_path: Seq<u8>, installable: InstallableView },
    Selecting { out_path: Seq<u8>, selection: SelectionView },
    Building { out_path: Seq<u8>, target: InstallableView },
    CheckingProfile { out_path: Seq<u8> },
    ShowingDiff { out_path: Seq<u8> },
    Warning,
    Confirming { out_path: Seq<u8> },
    ReadingUser { out_path: Seq<u8> },
    Activating { out_path: Seq<u8>, elevate: bool },
    Finished { outcome: OutcomeView },
}

impl View for RebuildStep {
    type V = RebuildStepView;

    closed spec fn view(&self) -> RebuildStepView {
        match *self {
            RebuildStep::CreatingDir => RebuildStepView::CreatingDir,
            RebuildStep::Resolving { out_path } => RebuildStepView::Resolving {
                out_path: out_path@,
            },
            RebuildStep::FindingDefault { out_path } => RebuildStepView::FindingDefault {
                out_path: out_path@,
            },
            RebuildStep::Updating { out_path, installable } => RebuildStepView::Updating {
                out_path: out_path@,
                installable: installable@,
            },
            RebuildStep::Selecting { out_path, selection } => RebuildStepView::Selecting {
                out_path: out_path@,
                selection: selection@,
            },
            RebuildStep::Building { out_path, target } => RebuildStepView::Building {
                out_path: out_path@,
                target: target@,
            },
            RebuildStep::CheckingProfile { out_path } => RebuildStepView::CheckingProfile {
                out_path: out_path@,
            },
            RebuildStep::ShowingDiff { out_path } => RebuildStepView::ShowingDiff {
                out_path: out_path@,
            },
            RebuildStep::Warning => RebuildStepView::Warning,
            RebuildStep::Confirming { out_path } => RebuildStepView::Confirming {
                out_path: out_path@,
            },
            RebuildStep::ReadingUser { out_path } => RebuildStepView::ReadingUser {
                out_path: out_path@,
            },
            RebuildStep::Activating { out_path, elevate } => RebuildStepView::Activating {
                out_path: out_path@,
                elevate,
            },
            RebuildStep::Finished { outcome } => RebuildStepView::Finished { outcome: outcome@ },
        }
    }
}

/// A rebuild under way.
#[derive(Debug)]
pub struct Rebuild {
    args: SystemRebuildArgs,
    variant: SystemRebuildVariant,
    step: RebuildStep,
}

/// The content of a [`Rebuild`].
#[verifier::ext_equal]
pub ghost struct RebuildView {
    pub args: SystemRebuildArgs,
    pub variant: SystemRebuildVariant,
    pub step: RebuildStepView,
}

impl View for Rebuild {
    type V = RebuildView;

    closed spec fn view(&self) -> RebuildView {
        RebuildView { args: self.args, variant: self.variant, step: self.step@ }
    }
}

/// Whether inputs are updated before the build.
pub open spec fn updates_inputs(args: SystemRebuildArgs) -> bool {
    args.update_args.update_all || args.update_args.update_input is Some
}

/// Whether the configuration is activated once it is built.
pub open spec fn activates(args: SystemRebuildArgs, variant: SystemRebuildVariant) -> bool {
    !args.common.dry && variant == SystemRebuildVariant::Switch
}

/// Going on with the choice of what to build.
pub open spec fn selecting(out_path: Seq<u8>, selection: SelectionView) -> RebuildStepView {
    match selection.step {
        SelectionStepView::Selected { installable } => RebuildStepView::Building {
            out_path,
            target: installable,
        },
        SelectionStepView::Failed { stage } => RebuildStepView::Finished {
            outcome: OutcomeView::Failed { stage },
        },
        SelectionStepView::Refused { error } => RebuildStepView::Finished {
            outcome: OutcomeView::Refused { error },
        },
        _ => RebuildStepView::Selecting { out_path, selection },
    }
}

/// The choice of what to build from `installable`, before anything was asked.
pub open spec fn selection_of(
    args: SystemRebuildArgs,
    installable: InstallableView,
) -> SelectionView {
    SelectionView::start(installable, args.hostname.deep_view(), args.extra_args.deep_view())
}

/// Going on with the installable that was found.
pub open spec fn found(
    args: SystemRebuildArgs,
    out_path: Seq<u8>,
    installable: InstallableView,
) -> RebuildStepView {
    if updates_inputs(args) {
        RebuildStepView::Updating { out_path, installable }
    } else {
        selecting(out_path, selection_of(args, installable))
    }
}

/// Going on once the changes were shown, or need not be.
pub open spec fn compared(
    args: SystemRebuildArgs,
    variant: SystemRebuildVariant,
    out_path: Seq<u8>,
) -> RebuildStepView {
    if !activates(args, variant) {
        if args.common.ask {
            RebuildStepView::Warning
        } else {
            RebuildStepView::Finished { outcome: OutcomeView::Success }
        }
    } else if args.common.ask {
        RebuildStepView::Confirming { out_path }
    } else {
        RebuildStepView::ReadingUser { out_path }
    }
}

impl RebuildView {
    /// The rebuild when nothing was done yet.
    pub open spec fn start(args: SystemRebuildArgs, variant: SystemRebuildVariant) -> Self {
        RebuildView {
            args,
            variant,
            step: match args.common.out_link {
                Some(out_path) => RebuildStepView::Resolving { out_path: out_path@ },
                None => RebuildStepView::CreatingDir,
            },
        }
    }

    /// The step after `event`; an event that is no reply changes nothing.
    pub open spec fn next_step(self, event: Event) -> RebuildStepView {
        match (self.step, event) {
            (RebuildStepView::CreatingDir, Event::Directory { path }) => RebuildStepView::Resolving {
                out_path: path_join(path@, encode_utf8("result"@)),
            },
            (RebuildStepView::CreatingDir, Event::Failed) => RebuildStepView::Finished {
                outcome: OutcomeView::Failed { stage: Stage::CreateTempDir },
            },
            (RebuildStepView::Resolving { out_path }, Event::Resolved { installable }) => {
                if installable is Unspecified {
                    RebuildStepView::FindingDefault { out_path }
                } else {
                    found(self.args, out_path, installable@)
                }
            },
            (RebuildStepView::Resolving { .. }, Event::Failed) => RebuildStepView::Finished {
                outcome: OutcomeView::Failed { stage: Stage::Resolve },
            },
            (RebuildStepView::FindingDefault { out_path }, Event::Resolved { installable }) => {
                if installable is Unspecified {
                    self.step
                } else {
                    found(self.args, out_path, installable@)
                }
            },
            (RebuildStepView::FindingDefault { .. }, Event::Failed) => RebuildStepView::Finished {
                outcome: OutcomeView::Failed { stage: Stage::FindDefault },
            },
            (RebuildStepView::Updating { out_path, installable }, Event::Done) => selecting(
                out_path,
                selection_of(self.args, installable),
            ),
            (RebuildStepView::Updating { .. }, Event::Failed) => RebuildStepView::Finished {
                outcome: OutcomeView::Failed { stage: Stage::Update },
            },
            (RebuildStepView::Selecting { out_path, selection }, event) => selecting(
                out_path,
                selection.next(event),
            ),
            (RebuildStepView::Building { out_path, .. }, Event::Done) => {
                if self.args.common.diff == DiffType::Never {
                    compared(self.args, self.variant, out_path)
                } else {
                    RebuildStepView::CheckingProfile { out_path }
                }
            },
            (RebuildStepView::Building { .. }, Event::Failed) => RebuildStepView::Finished {
                outcome: OutcomeView::Failed { stage: Stage::Build },
            },
            (RebuildStepView::CheckingProfile { out_path }, Event::Exists { exists: present }) => {
                if present {
                    RebuildStepView::ShowingDiff { out_path }
                } else {
                    compared(self.args, self.variant, out_path)
                }
            },
            (RebuildStepView::ShowingDiff { out_path }, Event::Done | Event::Failed) => {
                compared(self.args, self.variant, out_path)
            },
            (RebuildStepView::Warning, Event::Done) => RebuildStepView::Finished {
                outcome: OutcomeView::Success,
            },
            (RebuildStepView::Confirming { out_path }, Event::Confirmed { confirmed }) => {
                if confirmed {
                    RebuildStepView::ReadingUser { out_path }
                } else {
                    RebuildStepView::Finished {
                        outcome: OutcomeView::Refused { error: SystemErrorView::Rejected },
                    }
                }
            },
            (RebuildStepView::Confirming { .. }, Event::Failed) => RebuildStepView::Finished {
                outcome: OutcomeView::Failed { stage: Stage::Confirm },
            },
            (RebuildStepView::ReadingUser { out_path }, Event::User { uid }) => {
                RebuildStepView::Activating { out_path, elevate: uid != 0 }
            },
            (RebuildStepView::Activating { .. }, Event::Done) => RebuildStepView::Finished {
                outcome: OutcomeView::Success,
            },
            (RebuildStepView::Activating { .. }, Event::Failed) => RebuildStepView::Finished {
                outcome: OutcomeView::Failed { stage: Stage::Activate },
            },
            _ => self.step,
        }
    }

    /// The rebuild after `event`.
    pub open spec fn next(self, event: Event) -> Self {
        RebuildView { step: self.next_step(event), ..self }
    }

    /// What is asked next.
    pub open spec fn action(self) -> ActionView {
        match self.step {
            RebuildStepView::CreatingDir => ActionView::CreateTempDir { prefix: "nh-system"@ },
            RebuildStepView::Resolving { .. } => ActionView::Resolve {
                installable: self.args.common.installable@,
            },
            RebuildStepView::FindingDefault { .. } => ActionView::FindDefault,
            RebuildStepView::Updating { installable, .. } => ActionView::Update {
                installable,
                input: self.args.update_args.update_input.deep_view(),
                commit_lock_file: self.args.common.passthrough.commit_lock_file,
            },
            RebuildStepView::Selecting { selection, .. } => selection.action()->0,
            RebuildStepView::Building { out_path, target } => ActionView::Build {
                request: BuildRequestView::new(
                    target,
                    out_path,
                    self.args.extra_args.deep_view(),
                    self.args.common.passthrough,
                    !self.args.common.no_nom,
                ),
            },
            RebuildStepView::CheckingProfile { .. } => ActionView::CheckPath {
                path: encode_utf8(SYSTEM_PROFILE@),
            },
            RebuildStepView::ShowingDiff { out_path } => ActionView::ShowDiff {
                before: encode_utf8(SYSTEM_PROFILE@),
                after: out_path,
            },
            RebuildStepView::Warning => ActionView::Warn {
                message: "--ask has no effect as dry run was requested"@,
            },
            RebuildStepView::Confirming { .. } => ActionView::Confirm {
                question: "Apply the config?"@,
                default: false,
            },
            RebuildStepView::ReadingUser { .. } => ActionView::QueryUser,
            RebuildStepView::Activating { out_path, elevate } => ActionView::Activate {
                command: CommandLineView::activation(
                    out_path,
                    elevate,
                    self.args.show_activation_logs,
                ),
            },
            RebuildStepView::Finished { outcome } => ActionView::Finish { outcome },
        }
    }
}

/// `nix::unistd::Uid::is_root`: whether the user identifier `uid` is that of root, which is zero.
#[verifier::external_body]
fn is_root(uid: u32) -> (r: bool)
    ensures
        r == (uid == 0),
{
    nix::unistd::Uid::from_raw(uid).is_root()
}

impl SystemRebuildArgs {
    /// Starts the rebuild.
    pub fn rebuild(self, variant: SystemRebuildVariant) -> (r: Rebuild)
        ensures
            r@ == RebuildView::start(self, variant),
    {
        let step = match &self.common.out_link {
            Some(out_path) => RebuildStep::Resolving { out_path: out_path.clone() },
            None => RebuildStep::CreatingDir,
        };
        Rebuild { args: self, variant, step }
    }
}

impl RebuildStep {
    /// Going on with the choice of what to build.
    fn selecting(out_path: OsText, selection: Selection) -> (r: Self)
        ensures
            r@ == selecting(out_path@, selection@),
    {
        match selection.choice() {
            Choice::Open { selection } => RebuildStep::Selecting { out_path, selection },
            Choice::Selected { installable } => RebuildStep::Building {
                out_path,
                target: installable,
            },
            Choice::Failed { stage } => RebuildStep::failed(stage),
            Choice::Refused { error } => RebuildStep::Finished {
                outcome: Outcome::Refused { error },
            },
        }
    }

    /// Going on to choose what to build from `installable`.
    fn select(args: &SystemRebuildArgs, out_path: OsText, installable: Installable) -> (r: Self)
        requires
            !(installable is Unspecified),
        ensures
            r@ == selecting(out_path@, selection_of(*args, installable@)),
    {
        RebuildStep::selecting(
            out_path,
            select_installable(installable, args.hostname.clone(), &args.extra_args),
        )
    }

    /// Going on with the installable that was found.
    fn found(args: &SystemRebuildArgs, out_path: OsText, installable: Installable) -> (r: Self)
        requires
            !(installable is Unspecified),
        ensures
            r@ == found(*args, out_path@, installable@),
    {
        if args.update_args.update_all || args.update_args.update_input.is_some() {
            RebuildStep::Updating { out_path, installable }
        } else {
            RebuildStep::select(args, out_path, installable)
        }
    }

    /// Going on once the changes were shown, or need not be.
    fn compared(
        args: &SystemRebuildArgs,
        variant: SystemRebuildVariant,
        out_path: OsText,
    ) -> (r: Self)
        ensures
            r@ == compared(*args, variant, out_path@),
    {
        if args.common.dry || variant == SystemRebuildVariant::Build {
            if args.common.ask {
                RebuildStep::Warning
            } else {
                RebuildStep::Finished { outcome: Outcome::Success }
            }
        } else if args.common.ask {
            RebuildStep::Confirming { out_path }
        } else {
            RebuildStep::ReadingUser { out_path }
        }
    }

    /// The rebuild is over because something could not be done.
    fn failed(stage: Stage) -> (r: Self)
        ensures
            r@ == (RebuildStepView::Finished { outcome: OutcomeView::Failed { stage } }),
    {
        RebuildStep::Finished { outcome: Outcome::Failed { stage } }
    }
}

impl Rebuild {
    /// What is updated is specified, and a choice under way is still open.
    #[verifier::type_invariant]
    spec fn well_formed(self) -> bool {
        match self.step@ {
            RebuildStepView::Updating { installable, .. } => !(installable is Unspecified),
            RebuildStepView::Selecting { selection, .. } => selection.action() is Some,
            _ => true,
        }
    }

    /// The rebuild after `event`; an event that is no reply changes nothing.
    pub fn next(self, event: Event) -> (r: Self)
        ensures
            r@ == self@.next(event),
    {
        proof {
            use_type_invariant(&self);
        }
        let Rebuild { args, variant, step } = self;
        let step = match (step, event) {
            (RebuildStep::CreatingDir, Event::Directory { path }) => RebuildStep::Resolving {
                out_path: path.join("result"),
            },
            (RebuildStep::CreatingDir, Event::Failed) => RebuildStep::failed(Stage::CreateTempDir),
            (RebuildStep::Resolving { out_path }, Event::Resolved { installable }) => {
                if matches!(installable, Installable::Unspecified) {
                    RebuildStep::FindingDefault { out_path }
                } else {
                    RebuildStep::found(&args, out_path, installable)
                }
            },
            (RebuildStep::Resolving { .. }, Event::Failed) => RebuildStep::failed(Stage::Resolve),
            (RebuildStep::FindingDefault { out_path }, Event::Resolved { installable }) => {
                if matches!(installable, Installable::Unspecified) {
                    RebuildStep::FindingDefault { out_path }
                } else {
                    RebuildStep::found(&args, out_path, installable)
                }
            },
            (RebuildStep::FindingDefault { .. }, Event::Failed) => RebuildStep::failed(
                Stage::FindDefault,
            ),
            (RebuildStep::Updating { out_path, installable }, Event::Done) => RebuildStep::select(
                &args,
                out_path,
                installable,
            ),
            (RebuildStep::Updating { .. }, Event::Failed) => RebuildStep::failed(Stage::Update),
            (RebuildStep::Selecting { out_path, selection }, event) => RebuildStep::selecting(
                out_path,
                selection.next(event),
            ),
            (RebuildStep::Building { out_path, .. }, Event::Done) => {
                if args.common.diff == DiffType::Never {
                    RebuildStep::compared(&args, variant, out_path)
                } else {
                    RebuildStep::CheckingProfile { out_path }
                }
            },
            (RebuildStep::Building { .. }, Event::Failed) => RebuildStep::failed(Stage::Build),
            (RebuildStep::CheckingProfile { out_path }, Event::Exists { exists: present }) => {
                if present {
                    RebuildStep::ShowingDiff { out_path }
                } else {
                    RebuildStep::compared(&args, variant, out_path)
                }
            },
            (RebuildStep::ShowingDiff { out_path }, Event::Done | Event::Failed) => {
                RebuildStep::compared(&args, variant, out_path)
            },
            (RebuildStep::Warning, Event::Done) => RebuildStep::Finished {
                outcome: Outcome::Success,
            },
            (RebuildStep::Confirming { out_path }, Event::Confirmed { confirmed }) => {
                if confirmed {
                    RebuildStep::ReadingUser { out_path }
                } else {
                    RebuildStep::Finished {
                        outcome: Outcome::Refused { error: SystemError::Rejected },
                    }
                }
            },
            (RebuildStep::Confirming { .. }, Event::Failed) => RebuildStep::failed(Stage::Confirm),
            (RebuildStep::ReadingUser { out_path }, Event::User { uid }) => {
                RebuildStep::Activating { out_path, elevate: !is_root(uid) }
            },
            (RebuildStep::Activating { .. }, Event::Done) => RebuildStep::Finished {
                outcome: Outcome::Success,
            },
            (RebuildStep::Activating { .. }, Event::Failed) => RebuildStep::failed(Stage::Activate),
            (step, _) => step,
        };
        Rebuild { args, variant, step }
    }

    /// What is asked next.
    pub fn action(&self) -> (r: Action)
        ensures
            r@ == self@.action(),
    {
        proof {
            use_type_invariant(self);
        }
        match &self.step {
            RebuildStep::CreatingDir => Action::CreateTempDir { prefix: "nh-system".to_owned() },
            RebuildStep::Resolving { .. } => Action::Resolve {
                installable: self.args.common.installable.clone(),
            },
            RebuildStep::FindingDefault { .. } => Action::FindDefault,
            RebuildStep::Updating { installable, .. } => Action::Update {
                installable: installable.clone(),
                input: match &self.args.update_args.update_input {
                    Some(input) => Some(copy_strings(input)),
                    None => None,
                },
                commit_lock_file: self.args.common.passthrough.commit_lock_file,
            },
            RebuildStep::Selecting { selection, .. } => selection.action().unwrap(),
            RebuildStep::Building { out_path, target } => Action::Build {
                request: BuildRequest::new(
                    target.clone(),
                    out_path,
                    &self.args.extra_args,
                    self.args.common.passthrough,
                    !self.args.common.no_nom,
                ),
            },
            RebuildStep::CheckingProfile { .. } => Action::CheckPath {
                path: OsText::from_text(SYSTEM_PROFILE),
            },
            RebuildStep::ShowingDiff { out_path } => Action::ShowDiff {
                before: OsText::from_text(SYSTEM_PROFILE),
                after: out_path.clone(),
            },
            RebuildStep::Warning => Action::Warn {
                message: "--ask has no effect as dry run was requested".to_owned(),
            },
            RebuildStep::Confirming { .. } => Action::Confirm {
                question: "Apply the config?".to_owned(),
                default: false,
            },
            RebuildStep::ReadingUser { .. } => Action::QueryUser,
            RebuildStep::Activating { out_path, elevate } => Action::Activate {
                command: CommandLine::activation(
                    out_path,
                    *elevate,
                    self.args.show_activation_logs,
                ),
            },
            RebuildStep::Finished { outcome } => Action::Finish { outcome: outcome.clone() },
        }
    }
}

} // verus!

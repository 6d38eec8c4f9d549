//! Loading a configuration in a REPL.
use crate::args::SystemReplArgs;
use crate::command::{CommandLine, CommandLineView};
use crate::error::{SystemError, SystemErrorView};
use crate::installable::{Installable, InstallableView};
use crate::select::{select_installable, Choice, Selection, SelectionStepView, SelectionView};
use crate::session::{Action, ActionView, Event, Outcome, OutcomeView, Stage};
use vstd::prelude::*;

verus! {

/// How far the loading has come.
#[derive(Debug)]
enum ReplStep {
    /// Waiting for what the user named to be completed.
    Resolving,
    /// Waiting for something to use, since nothing was named.
    FindingDefault,
    /// Choosing what to load.
    Selecting { selection: Selection },
    /// Waiting for the arguments that stand for what is loaded.
    Listing { target: Installable },
    /// Waiting for the REPL to end.
    Running { args: Vec<String> },
    /// The session is over.
    Finished { outcome: Outcome },
}

/// The content of the step that a [`Repl`] has reached.
#[verifier::ext_equal]
pub ghost enum ReplStepView {
    Resolving,
    FindingDefault,
    Selecting { selection: SelectionView },
    Listing { target: InstallableView },
    Running { args: Seq<Seq<char>> },
    Finished { outcome: OutcomeView },
}

impl View for ReplStep {
    type V = ReplStepView;

    closed spec fn view(&self) -> ReplStepView {
        match *self {
            ReplStep::Resolving => ReplStepView::Resolving,
            ReplStep::FindingDefault => ReplStepView::FindingDefault,
            ReplStep::Selecting { selection } => ReplStepView::Selecting { selection: selection@ },
            ReplStep::Listing { target } => ReplStepView::Listing { target: target@ },
            ReplStep::Running { args } => ReplStepView::Running { args: args.deep_view() },
            ReplStep::Finished { outcome } => ReplStepView::Finished { outcome: outcome@ },
        }
    }
}

/// The loading of a configuration, under way.
#[derive(Debug)]
pub struct Repl {
    args: SystemReplArgs,
    step: ReplStep,
}

/// The content of a [`Repl`].
#[verifier::ext_equal]
pub ghost struct ReplView {
    pub args: SystemReplArgs,
    pub step: ReplStepView,
}

impl View for Repl {
    type V = ReplView;

    closed spec fn view(&self) -> ReplView {
        ReplView { args: self.args, step: self.step@ }
    }
}

/// Going on with the choice of what to load.
pub open spec fn selecting(selection: SelectionView) -> ReplStepView {
    match selection.step {
        SelectionStepView::Selected { installable } => ReplStepView::Listing {
            target: installable,
        },
        SelectionStepView::Failed { stage } => ReplStepView::Finished {
            outcome: OutcomeView::Failed { stage },
        },
        SelectionStepView::Refused { error } => ReplStepView::Finished {
            outcome: OutcomeView::Refused { error },
        },
        _ => ReplStepView::Selecting { selection },
    }
}

/// Going on with the installable that was found; a store path cannot be loaded.
pub open spec fn found(args: SystemReplArgs, installable: InstallableView) -> ReplStepView {
    if installable is Store {
        ReplStepView::Finished {
            outcome: OutcomeView::Refused { error: SystemErrorView::StoreInRepl },
        }
    } else {
        selecting(SelectionView::start(installable, args.hostname.deep_view(), Seq::empty()))
    }
}

impl ReplView {
    /// The loading when nothing was done yet.
    pub open spec fn start(args: SystemReplArgs) -> Self {
        ReplView { args, step: ReplStepView::Resolving }
    }

    /// The step after `event`; an event that is no reply changes nothing.
    pub open spec fn next_step(self, event: Event) -> ReplStepView {
        match (self.step, event) {
            (ReplStepView::Resolving, Event::Resolved { installable }) => {
                if installable is Unspecified {
                    ReplStepView::FindingDefault
                } else {
                    found(self.args, installable@)
                }
            },
            (ReplStepView::Resolving, Event::Failed) => ReplStepView::Finished {
                outcome: OutcomeView::Failed { stage: Stage::Resolve },
            },
            (ReplStepView::FindingDefault, Event::Resolved { installable }) => {
                if installable is Unspecified {
                    self.step
                } else {
                    found(self.args, installable@)
                }
            },
            (ReplStepView::FindingDefault, Event::Failed) => ReplStepView::Finished {
                outcome: OutcomeView::Failed { stage: Stage::FindDefault },
            },
            (ReplStepView::Selecting { selection }, event) => selecting(selection.next(event)),
            (ReplStepView::Listing { .. }, Event::Arguments { args }) => ReplStepView::Running {
                args: args.deep_view(),
            },
            (ReplStepView::Running { .. }, Event::Done) => ReplStepView::Finished {
                outcome: OutcomeView::Success,
            },
            (ReplStepView::Running { .. }, Event::Failed) => ReplStepView::Finished {
                outcome: OutcomeView::Failed { stage: Stage::OpenRepl },
            },
            _ => self.step,
        }
    }

    /// The loading after `event`.
    pub open spec fn next(self, event: Event) -> Self {
        ReplView { step: self.next_step(event), ..self }
    }

    /// What is asked next.
    pub open spec fn action(self) -> ActionView {
        match self.step {
            ReplStepView::Resolving => ActionView::Resolve { installable: self.args.installable@ },
            ReplStepView::FindingDefault => ActionView::FindDefault,
            ReplStepView::Selecting { selection } => selection.action()->0,
            ReplStepView::Listing { target } => ActionView::ListArguments { installable: target },
            ReplStepView::Running { args } => ActionView::OpenRepl {
                command: CommandLineView::repl(args),
            },
            ReplStepView::Finished { outcome } => ActionView::Finish { outcome },
        }
    }
}

impl SystemReplArgs {
    /// Starts the loading.
    pub fn run(self) -> (r: Repl)
        ensures
            r@ == ReplView::start(self),
    {
        Repl { args: self, step: ReplStep::Resolving }
    }
}

impl ReplStep {
    /// Going on with the choice of what to load.
    fn selecting(selection: Selection) -> (r: Self)
        ensures
            r@ == selecting(selection@),
    {
        match selection.choice() {
            Choice::Open { selection } => ReplStep::Selecting { selection },
            Choice::Selected { installable } => ReplStep::Listing { target: installable },
            Choice::Failed { stage } => ReplStep::failed(stage),
            Choice::Refused { error } => ReplStep::Finished { outcome: Outcome::Refused { error } },
        }
    }

    /// Going on with the installable that was found.
    fn found(args: &SystemReplArgs, installable: Installable) -> (r: Self)
        requires
            !(installable is Unspecified),
        ensures
            r@ == found(*args, installable@),
    {
        if matches!(installable, Installable::Store { .. }) {
            return ReplStep::Finished {
                outcome: Outcome::Refused { error: SystemError::StoreInRepl },
            };
        }
        let extra_args: Vec<String> = Vec::new();
        assert(extra_args.deep_view() =~= Seq::empty());
        ReplStep::selecting(select_installable(installable, args.hostname.clone(), &extra_args))
    }

    /// The session is over because something could not be done.
    fn failed(stage: Stage) -> (r: Self)
        ensures
            r@ == (ReplStepView::Finished { outcome: OutcomeView::Failed { stage } }),
    {
        ReplStep::Finished { outcome: Outcome::Failed { stage } }
    }
}

impl Repl {
    /// A choice under way is still open.
    #[verifier::type_invariant]
    spec fn well_formed(self) -> bool {
        match self.step@ {
            ReplStepView::Selecting { selection } => selection.action() is Some,
            _ => true,
        }
    }

    /// The loading after `event`; an event that is no reply changes nothing.
    pub fn next(self, event: Event) -> (r: Self)
        ensures
            r@ == self@.next(event),
    {
        let Repl { args, step } = self;
        let step = match (step, event) {
            (ReplStep::Resolving, Event::Resolved { installable }) => {
                if matches!(installable, Installable::Unspecified) {
                    ReplStep::FindingDefault
                } else {
                    ReplStep::found(&args, installable)
                }
            },
            (ReplStep::Resolving, Event::Failed) => ReplStep::failed(Stage::Resolve),
            (ReplStep::FindingDefault, Event::Resolved { installable }) => {
                if matches!(installable, Installable::Unspecified) {
                    ReplStep::FindingDefault
                } else {
                    ReplStep::found(&args, installable)
                }
            },
            (ReplStep::FindingDefault, Event::Failed) => ReplStep::failed(Stage::FindDefault),
            (ReplStep::Selecting { selection }, event) => ReplStep::selecting(
                selection.next(event),
            ),
            (ReplStep::Listing { .. }, Event::Arguments { args }) => ReplStep::Running { args },
            (ReplStep::Running { .. }, Event::Done) => ReplStep::Finished {
                outcome: Outcome::Success,
            },
            (ReplStep::Running { .. }, Event::Failed) => ReplStep::failed(Stage::OpenRepl),
            (step, _) => step,
        };
        Repl { args, step }
    }

    /// What is asked next.
    pub fn action(&self) -> (r: Action)
        ensures
            r@ == self@.action(),
    {
        proof {
            use_type_invariant(self);
        }
        match &self.step {
            ReplStep::Resolving => Action::Resolve { installable: self.args.installable.clone() },
            ReplStep::FindingDefault => Action::FindDefault,
            ReplStep::Selecting { selection } => selection.action().unwrap(),
            ReplStep::Listing { target } => Action::ListArguments { installable: target.clone() },
            ReplStep::Running { args } => Action::OpenRepl { command: CommandLine::repl(args) },
            ReplStep::Finished { outcome } => Action::Finish { outcome: outcome.clone() },
        }
    }
}

} // verus!

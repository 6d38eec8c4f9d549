//! A run of `nh system`.
use crate::args::{SystemArgs, SystemRebuildArgs, SystemSubcommand};
use crate::rebuild::{Rebuild, RebuildView, SystemRebuildVariant};
use crate::repl::{Repl, ReplView};
use crate::session::{Action, ActionView, Event};
use vstd::prelude::*;

verus! {

/// A run of `nh system`, under way.
#[derive(Debug)]
pub enum SystemRun {
    /// Waiting for the user to be warned about options that have no effect.
    Warning { args: SystemRebuildArgs },
    /// A configuration is being rebuilt.
    Rebuilding { rebuild: Rebuild },
    /// A configuration is being loaded in a REPL.
    Loading { repl: Repl },
}

/// The content of a [`SystemRun`].
#[verifier::ext_equal]
pub ghost enum SystemRunView {
    Warning { args: SystemRebuildArgs },
    Rebuilding { rebuild: RebuildView },
    Loading { repl: ReplView },
}

impl View for SystemRun {
    type V = SystemRunView;

    open spec fn view(&self) -> SystemRunView {
        match *self {
            SystemRun::Warning { args } => SystemRunView::Warning { args },
            SystemRun::Rebuilding { rebuild } => SystemRunView::Rebuilding { rebuild: rebuild@ },
            SystemRun::Loading { repl } => SystemRunView::Loading { repl: repl@ },
        }
    }
}

impl SystemRunView {
    /// The run when nothing was done yet.
    pub open spec fn start(args: SystemArgs) -> Self {
        match args.subcommand {
            SystemSubcommand::Switch(args) => SystemRunView::Rebuilding {
                rebuild: RebuildView::start(args, SystemRebuildVariant::Switch),
            },
            SystemSubcommand::Build(args) => {
                if args.common.ask || args.common.dry {
                    SystemRunView::Warning { args }
                } else {
                    SystemRunView::Rebuilding {
                        rebuild: RebuildView::start(args, SystemRebuildVariant::Build),
                    }
                }
            },
            SystemSubcommand::Repl(args) => SystemRunView::Loading { repl: ReplView::start(args) },
        }
    }

    /// The run after `event`; an event that is no reply changes nothing.
    pub open spec fn next(self, event: Event) -> Self {
        match self {
            SystemRunView::Warning { args } => {
                if event is Done {
                    SystemRunView::Rebuilding {
                        rebuild: RebuildView::start(args, SystemRebuildVariant::Build),
                    }
                } else {
                    self
                }
            },
            SystemRunView::Rebuilding { rebuild } => SystemRunView::Rebuilding {
                rebuild: rebuild.next(event),
            },
            SystemRunView::Loading { repl } => SystemRunView::Loading { repl: repl.next(event) },
        }
    }

    /// What is asked next.
    pub open spec fn action(self) -> ActionView {
        match self {
            SystemRunView::Warning { .. } => ActionView::Warn {
                message: "`--ask` and `--dry` have no effect for `nh system build`"@,
            },
            SystemRunView::Rebuilding { rebuild } => rebuild.action(),
            SystemRunView::Loading { repl } => repl.action(),
        }
    }
}

impl SystemArgs {
    /// Starts the run.
    pub fn run(self) -> (r: SystemRun)
        ensures
            r@ == SystemRunView::start(self),
    {
        match self.subcommand {
            SystemSubcommand::Switch(args) => SystemRun::Rebuilding {
                rebuild: args.rebuild(SystemRebuildVariant::Switch),
            },
            SystemSubcommand::Build(args) => {
                if args.common.ask || args.common.dry {
                    SystemRun::Warning { args }
                } else {
                    SystemRun::Rebuilding { rebuild: args.rebuild(SystemRebuildVariant::Build) }
                }
            },
            SystemSubcommand::Repl(args) => SystemRun::Loading { repl: args.run() },
        }
    }
}

impl SystemRun {
    /// The run after `event`; an event that is no reply changes nothing.
    pub fn next(self, event: Event) -> (r: Self)
        ensures
            r@ == self@.next(event),
    {
        match self {
            SystemRun::Warning { args } => {
                if matches!(event, Event::Done) {
                    SystemRun::Rebuilding { rebuild: args.rebuild(SystemRebuildVariant::Build) }
                } else {
                    SystemRun::Warning { args }
                }
            },
            SystemRun::Rebuilding { rebuild } => SystemRun::Rebuilding {
                rebuild: rebuild.next(event),
            },
            SystemRun::Loading { repl } => SystemRun::Loading { repl: repl.next(event) },
        }
    }

    /// What is asked next.
    pub fn action(&self) -> (r: Action)
        ensures
            r@ == self@.action(),
    {
        match self {
            SystemRun::Warning { .. } => Action::Warn {
                message: "`--ask` and `--dry` have no effect for `nh system build`".to_owned(),
            },
            SystemRun::Rebuilding { rebuild } => rebuild.action(),
            SystemRun::Loading { repl } => repl.action(),
        }
    }
}

} // verus!

//! Choosing what to build or load from what the user named.
use crate::attribute::{
    flake_attr_candidates, flake_candidates, nonflake_attribute, normalize_nonflake_attribute,
};
use crate::command::{CommandLine, CommandLineView};
use crate::error::{SystemError, SystemErrorView};
use crate::installable::{Installable, InstallableView};
use crate::search::{CandidateSearch, CandidateSearchView};
use crate::session::{Action, ActionView, Event, Stage};
use crate::text::{copy_strings, trimmed};
use vstd::prelude::*;

verus! {

/// The current Nix system as `nix config show system` printed it: `output` without the white space
/// around it, unless nothing is left.
pub open spec fn named_system(output: Option<Seq<char>>) -> Option<Seq<char>> {
    match output {
        Some(text) if trimmed(text).len() > 0 => Some(trimmed(text)),
        _ => None,
    }
}

/// The current Nix system as `nix config show system` printed it.
pub fn get_current_system(output: &Option<String>) -> (r: Result<String, SystemError>)
    ensures
        match r {
            Ok(system) => named_system(output.deep_view()) == Some(system@),
            Err(error) => {
                &&& named_system(output.deep_view()) is None
                &&& error@ == SystemErrorView::UnknownSystem
            },
        },
{
    if let Some(text) = output {
        let system = text.as_str().trim();
        if !system.is_empty() {
            return Ok(system.to_owned());
        }
    }
    Err(SystemError::UnknownSystem)
}

/// How far the choice has come.
#[derive(Debug)]
enum SelectionStep {
    /// Waiting for the current Nix system.
    AskingSystem { reference: String, attribute: Vec<String>, hostname: Option<String> },
    /// Waiting for the host name.
    AskingHost {
        reference: String,
        attribute: Vec<String>,
        hostname: Option<String>,
        current_system: String,
    },
    /// Waiting for the arguments that stand for a candidate.
    Listing { search: CandidateSearch, candidate: Installable },
    /// Waiting to hear whether a candidate evaluates.
    Evaluating { search: CandidateSearch, candidate: Installable, args: Vec<String> },
    /// The choice is made.
    Selected { installable: Installable },
    /// The choice could not be made.
    Failed { stage: Stage },
    /// There is nothing to choose.
    Refused { error: SystemError },
}

/// The content of the step that a [`Selection`] has reached.
#[verifier::ext_equal]
pub ghost enum SelectionStepView {
    AskingSystem {
        reference: Seq<char>,
        attribute: Seq<Seq<char>>,
        hostname: Option<Seq<char>>,
    },
    AskingHost {
        reference: Seq<char>,
        attribute: Seq<Seq<char>>,
        hostname: Option<Seq<char>>,
        current_system: Seq<char>,
    },
    Listing { search: CandidateSearchView, candidate: InstallableView },
    Evaluating { search: CandidateSearchView, candidate: InstallableView, args: Seq<Seq<char>> },
    Selected { installable: InstallableView },
    Failed { stage: Stage },
    Refused { error: SystemErrorView },
}

impl View for SelectionStep {
    type V = SelectionStepView;

    closed spec fn view(&self) -> SelectionStepView {
        match *self {
            SelectionStep::AskingSystem { reference, attribute, hostname } => {
                SelectionStepView::AskingSystem {
                    reference: reference@,
                    attribute: attribute.deep_view(),
                    hostname: hostname.deep_view(),
                }
            },
            SelectionStep::AskingHost { reference, attribute, hostname, current_system } => {
                SelectionStepView::AskingHost {
                    reference: reference@,
                    attribute: attribute.deep_view(),
                    hostname: hostname.deep_view(),
                    current_system: current_system@,
                }
            },
            SelectionStep::Listing { search, candidate } => SelectionStepView::Listing {
                search: search@,
                candidate: candidate@,
            },
            SelectionStep::Evaluating { search, candidate, args } => SelectionStepView::Evaluating {
                search: search@,
                candidate: candidate@,
                args: args.deep_view(),
            },
            SelectionStep::Selected { installable } => SelectionStepView::Selected {
                installable: installable@,
            },
            SelectionStep::Failed { stage } => SelectionStepView::Failed { stage },
            SelectionStep::Refused { error } => SelectionStepView::Refused { error: error@ },
        }
    }
}

/// The choice of what to build or load, while it is being made.
#[derive(Debug)]
pub struct Selection {
    /// Arguments for the evaluation of candidates.
    extra_args: Vec<String>,
    step: SelectionStep,
}

/// The content of a [`Selection`].
#[verifier::ext_equal]
pub ghost struct SelectionView {
    pub extra_args: Seq<Seq<char>>,
    pub step: SelectionStepView,
}

impl View for Selection {
    type V = SelectionView;

    closed spec fn view(&self) -> SelectionView {
        SelectionView { extra_args: self.extra_args.deep_view(), step: self.step@ }
    }
}

/// What a [`Selection`] came to.
#[derive(Debug)]
pub enum Choice {
    /// The choice is still being made.
    Open { selection: Selection },
    /// The choice is made.
    Selected { installable: Installable },
    /// The choice could not be made.
    Failed { stage: Stage },
    /// There is nothing to choose.
    Refused { error: SystemError },
}

impl SelectionStepView {
    /// Going on to the next candidate, or giving up for want of one.
    pub open spec fn trying(search: CandidateSearchView) -> Self {
        if search.remaining.len() > 0 {
            SelectionStepView::Listing { search: search.advanced(), candidate: search.next() }
        } else {
            SelectionStepView::Refused {
                error: SystemErrorView::NoConfiguration { tried: search.tried },
            }
        }
    }

    /// The start of the choice for `installable`: that of a flake takes some asking, that of
    /// anything else is settled at once.
    pub open spec fn start(installable: InstallableView, hostname: Option<Seq<char>>) -> Self {
        match installable {
            InstallableView::Flake { reference, attribute } => SelectionStepView::AskingSystem {
                reference,
                attribute,
                hostname,
            },
            InstallableView::File { path, attribute } => match nonflake_attribute(attribute) {
                Ok(attribute) => SelectionStepView::Selected {
                    installable: InstallableView::File { path, attribute },
                },
                Err(error) => SelectionStepView::Refused { error },
            },
            InstallableView::Expression { expression, attribute } => match nonflake_attribute(
                attribute,
            ) {
                Ok(attribute) => SelectionStepView::Selected {
                    installable: InstallableView::Expression { expression, attribute },
                },
                Err(error) => SelectionStepView::Refused { error },
            },
            other => SelectionStepView::Selected { installable: other },
        }
    }

    /// The step after `event`; an event that is no reply changes nothing.
    pub open spec fn next(self, event: Event) -> Self {
        match (self, event) {
            (
                SelectionStepView::AskingSystem { reference, attribute, hostname },
                Event::Captured { output },
            ) => match named_system(output.deep_view()) {
                Some(current_system) => SelectionStepView::AskingHost {
                    reference,
                    attribute,
                    hostname,
                    current_system,
                },
                None => SelectionStepView::Refused { error: SystemErrorView::UnknownSystem },
            },
            (SelectionStepView::AskingSystem { .. }, Event::Failed) => SelectionStepView::Failed {
                stage: Stage::QuerySystem,
            },
            (
                SelectionStepView::AskingHost { reference, attribute, current_system, .. },
                Event::Hostname { hostname },
            ) => match flake_candidates(attribute, current_system, hostname@) {
                Some(candidates) => Self::trying(
                    CandidateSearchView::start(reference, candidates),
                ),
                None => SelectionStepView::Refused {
                    error: SystemErrorView::FlakeAttributeTooSpecific {
                        attribute,
                        current_system,
                        hostname: hostname@,
                    },
                },
            },
            (SelectionStepView::AskingHost { .. }, Event::Failed) => SelectionStepView::Failed {
                stage: Stage::QueryHostname,
            },
            (SelectionStepView::Listing { search, candidate }, Event::Arguments { args }) => {
                SelectionStepView::Evaluating {
                    search: search.recorded(args.deep_view()),
                    candidate,
                    args: args.deep_view(),
                }
            },
            (SelectionStepView::Evaluating { candidate, .. }, Event::Done) => {
                SelectionStepView::Selected { installable: candidate }
            },
            (SelectionStepView::Evaluating { search, .. }, Event::Failed) => Self::trying(search),
            _ => self,
        }
    }
}

impl SelectionView {
    /// The start of the choice for `installable`.
    pub open spec fn start(
        installable: InstallableView,
        hostname: Option<Seq<char>>,
        extra_args: Seq<Seq<char>>,
    ) -> Self {
        SelectionView { extra_args, step: SelectionStepView::start(installable, hostname) }
    }

    /// The choice after `event`.
    pub open spec fn next(self, event: Event) -> Self {
        SelectionView { step: self.step.next(event), ..self }
    }

    /// What is asked next; `None` once the choice is over.
    pub open spec fn action(self) -> Option<ActionView> {
        match self.step {
            SelectionStepView::AskingSystem { .. } => Some(
                ActionView::QuerySystem { command: CommandLineView::current_system() },
            ),
            SelectionStepView::AskingHost { hostname, .. } => Some(
                ActionView::QueryHostname { hostname },
            ),
            SelectionStepView::Listing { candidate, .. } => Some(
                ActionView::ListArguments { installable: candidate },
            ),
            SelectionStepView::Evaluating { args, .. } => Some(
                ActionView::Evaluate { command: CommandLineView::evaluation(self.extra_args, args) },
            ),
            _ => None,
        }
    }
}

impl SelectionStep {
    /// Going on to the next candidate, or giving up for want of one.
    fn trying(search: CandidateSearch) -> (r: Self)
        ensures
            r@ == SelectionStepView::trying(search@),
    {
        let mut search = search;
        match search.next_candidate() {
            Some(candidate) => SelectionStep::Listing { search, candidate },
            None => SelectionStep::Refused { error: search.into_error() },
        }
    }

    fn next(self, event: Event) -> (r: Self)
        ensures
            r@ == self@.next(event),
    {
        match (self, event) {
            (
                SelectionStep::AskingSystem { reference, attribute, hostname },
                Event::Captured { output },
            ) => match get_current_system(&output) {
                Ok(current_system) => SelectionStep::AskingHost {
                    reference,
                    attribute,
                    hostname,
                    current_system,
                },
                Err(error) => SelectionStep::Refused { error },
            },
            (SelectionStep::AskingSystem { .. }, Event::Failed) => SelectionStep::Failed {
                stage: Stage::QuerySystem,
            },
            (
                SelectionStep::AskingHost { reference, attribute, current_system, .. },
                Event::Hostname { hostname },
            ) => match flake_attr_candidates(
                attribute,
                current_system.as_str(),
                hostname.as_str(),
            ) {
                Ok(candidates) => SelectionStep::trying(
                    CandidateSearch::new(reference, candidates),
                ),
                Err(error) => SelectionStep::Refused { error },
            },
            (SelectionStep::AskingHost { .. }, Event::Failed) => SelectionStep::Failed {
                stage: Stage::QueryHostname,
            },
            (SelectionStep::Listing { search, candidate }, Event::Arguments { args }) => {
                let mut search = search;
                search.record(&args);
                SelectionStep::Evaluating { search, candidate, args }
            },
            (SelectionStep::Evaluating { candidate, .. }, Event::Done) => SelectionStep::Selected {
                installable: candidate,
            },
            (SelectionStep::Evaluating { search, .. }, Event::Failed) => SelectionStep::trying(
                search,
            ),
            (step, _) => step,
        }
    }
}

/// The start of the choice among the candidates of a flake.
pub fn select_flake_installable(
    reference: String,
    attribute: Vec<String>,
    hostname: Option<String>,
    extra_args: &Vec<String>,
) -> (r: Selection)
    ensures
        r@ == SelectionView::start(
            InstallableView::Flake { reference: reference@, attribute: attribute.deep_view() },
            hostname.deep_view(),
            extra_args.deep_view(),
        ),
{
    Selection {
        extra_args: copy_strings(extra_args),
        step: SelectionStep::AskingSystem { reference, attribute, hostname },
    }
}

/// The start of the choice for `installable`, which must be specified.
pub fn select_installable(
    installable: Installable,
    hostname: Option<String>,
    extra_args: &Vec<String>,
) -> (r: Selection)
    requires
        !(installable is Unspecified),
    ensures
        r@ == SelectionView::start(installable@, hostname.deep_view(), extra_args.deep_view()),
{
    let step = match installable {
        Installable::Flake { reference, attribute } => {
            return select_flake_installable(reference, attribute, hostname, extra_args);
        },
        Installable::File { path, mut attribute } => match normalize_nonflake_attribute(
            &mut attribute,
        ) {
            Ok(()) => SelectionStep::Selected {
                installable: Installable::File { path, attribute },
            },
            Err(error) => SelectionStep::Refused { error },
        },
        Installable::Expression { expression, mut attribute } => match normalize_nonflake_attribute(
            &mut attribute,
        ) {
            Ok(()) => SelectionStep::Selected {
                installable: Installable::Expression { expression, attribute },
            },
            Err(error) => SelectionStep::Refused { error },
        },
        other => SelectionStep::Selected { installable: other },
    };
    Selection { extra_args: copy_strings(extra_args), step }
}

impl Selection {
    /// What is asked next; `None` once the choice is over.
    pub fn action(&self) -> (r: Option<Action>)
        ensures
            match r {
                Some(action) => self@.action() == Some(action@),
                None => self@.action() is None,
            },
    {
        match &self.step {
            SelectionStep::AskingSystem { .. } => Some(
                Action::QuerySystem { command: CommandLine::current_system() },
            ),
            SelectionStep::AskingHost { hostname, .. } => Some(
                Action::QueryHostname { hostname: hostname.clone() },
            ),
            SelectionStep::Listing { candidate, .. } => Some(
                Action::ListArguments { installable: candidate.clone() },
            ),
            SelectionStep::Evaluating { args, .. } => Some(
                Action::Evaluate { command: CommandLine::evaluation(&self.extra_args, args) },
            ),
            _ => None,
        }
    }

    /// The choice after `event`; an event that is no reply changes nothing.
    pub fn next(self, event: Event) -> (r: Self)
        ensures
            r@ == self@.next(event),
    {
        Selection { extra_args: self.extra_args, step: self.step.next(event) }
    }

    /// What the choice came to.
    pub fn choice(self) -> (r: Choice)
        ensures
            match r {
                Choice::Open { selection } => selection == self && self@.action() is Some,
                Choice::Selected { installable } => self@.step == (SelectionStepView::Selected {
                    installable: installable@,
                }),
                Choice::Failed { stage } => self@.step == (SelectionStepView::Failed { stage }),
                Choice::Refused { error } => self@.step == (SelectionStepView::Refused {
                    error: error@,
                }),
            },
    {
        match self.step {
            SelectionStep::Selected { installable } => Choice::Selected { installable },
            SelectionStep::Failed { stage } => Choice::Failed { stage },
            SelectionStep::Refused { error } => Choice::Refused { error },
            step => Choice::Open { selection: Selection { extra_args: self.extra_args, step } },
        }
    }
}

} // verus!

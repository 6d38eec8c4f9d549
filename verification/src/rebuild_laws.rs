//! What holds of every rebuild.
use crate::args::{DiffType, SystemRebuildArgs};
use crate::error::SystemErrorView;
use crate::installable::{Installable, InstallableView};
use crate::os_text::{path_join, OsText};
use crate::rebuild::{
    activates, selecting, updates_inputs, RebuildStepView, RebuildView, SystemRebuildVariant,
};
use crate::select::{SelectionStepView, SelectionView};
use crate::select_laws::{law_choice_heeds_answers_only, law_selection_goes_on_by_replies};
use crate::session::{is_reply, stage_of, ActionView, Event, OutcomeView, Stage};
use vstd::prelude::*;
use vstd::utf8::encode_utf8;

verus! {

impl RebuildView {
    /// The rebuild after `events`, in order.
    pub open spec fn after(self, events: Seq<Event>) -> Self
        decreases events.len(),
    {
        if events.len() == 0 {
            self
        } else {
            self.after(events.drop_last()).next(events.last())
        }
    }

    /// How many replies the rebuild can still take.
    pub open spec fn rank(self) -> nat {
        match self.step {
            RebuildStepView::CreatingDir => 20,
            RebuildStepView::Resolving { .. } => 19,
            RebuildStepView::FindingDefault { .. } => 18,
            RebuildStepView::Updating { .. } => 17,
            RebuildStepView::Selecting { selection, .. } => 6 + selection.rank(),
            RebuildStepView::Building { .. } => 6,
            RebuildStepView::CheckingProfile { .. } => 5,
            RebuildStepView::ShowingDiff { .. } => 4,
            RebuildStepView::Confirming { .. } => 3,
            RebuildStepView::ReadingUser { .. } => 2,
            RebuildStepView::Activating { .. } => 1,
            RebuildStepView::Warning => 1,
            RebuildStepView::Finished { .. } => 0,
        }
    }

    /// That the step fits the request.
    pub open spec fn sound(self) -> bool {
        let common = self.args.common;
        match self.step {
            RebuildStepView::Updating { installable, .. } => {
                updates_inputs(self.args) && !(installable is Unspecified)
            },
            RebuildStepView::Selecting { selection, .. } => selection.action() is Some,
            RebuildStepView::CheckingProfile { .. }
            | RebuildStepView::ShowingDiff { .. } => common.diff != DiffType::Never,
            RebuildStepView::Warning => common.ask && !activates(self.args, self.variant),
            RebuildStepView::Confirming { .. } => common.ask && activates(self.args, self.variant),
            RebuildStepView::ReadingUser { .. }
            | RebuildStepView::Activating { .. } => activates(self.args, self.variant),
            _ => true,
        }
    }

    /// That among `events` the rebuild was told that the inputs are updated.
    pub open spec fn updated(self, events: Seq<Event>) -> bool {
        exists|i: int|
            0 <= i < events.len() && #[trigger] events[i] is Done && self.after(
                events.take(i),
            ).action() is Update
    }

    /// That among `events` the rebuild was told that the build succeeded.
    pub open spec fn built(self, events: Seq<Event>) -> bool {
        exists|i: int|
            0 <= i < events.len() && #[trigger] events[i] is Done && self.after(
                events.take(i),
            ).action() is Build
    }

    /// That among `events` the rebuild was told that the user agrees.
    pub open spec fn agreed(self, events: Seq<Event>) -> bool {
        exists|i: int|
            0 <= i < events.len() && #[trigger] events[i] == (Event::Confirmed { confirmed: true })
                && self.after(events.take(i)).action() is Confirm
    }

    /// That among `events` the rebuild was told that the activation succeeded.
    pub open spec fn activated(self, events: Seq<Event>) -> bool {
        exists|i: int|
            0 <= i < events.len() && #[trigger] events[i] is Done && self.after(
                events.take(i),
            ).action() is Activate
    }
}

/// The start of every rebuild fits its request.
pub proof fn law_rebuild_starts_sound(args: SystemRebuildArgs, variant: SystemRebuildVariant)
    ensures
        RebuildView::start(args, variant).sound(),
        RebuildView::start(args, variant).rank() <= 20,
{
}

/// Every event keeps a rebuild fitting its request, and keeps the request.
pub proof fn law_rebuild_stays_sound(rebuild: RebuildView, event: Event)
    requires
        rebuild.sound(),
    ensures
        rebuild.next(event).sound(),
        rebuild.next(event).args == rebuild.args,
        rebuild.next(event).variant == rebuild.variant,
{
}

/// A reply brings a rebuild closer to its end; anything else leaves it as it is.
pub proof fn law_rebuild_goes_on_by_replies(rebuild: RebuildView, event: Event)
    requires
        rebuild.sound(),
    ensures
        if is_reply(rebuild.action(), event) {
            rebuild.next(event).rank() < rebuild.rank()
        } else {
            rebuild.next(event) == rebuild
        },
{
    if let RebuildStepView::Selecting { selection, .. } = rebuild.step {
        law_selection_goes_on_by_replies(selection, event);
    }
}

proof fn lemma_reaches_sound(args: SystemRebuildArgs, variant: SystemRebuildVariant, events: Seq<Event>)
    ensures
        RebuildView::start(args, variant).after(events).sound(),
        RebuildView::start(args, variant).after(events).args == args,
        RebuildView::start(args, variant).after(events).variant == variant,
    decreases events.len(),
{
    if events.len() > 0 {
        lemma_reaches_sound(args, variant, events.drop_last());
        law_rebuild_stays_sound(
            RebuildView::start(args, variant).after(events.drop_last()),
            events.last(),
        );
    }
}

/// A rebuild that is over stays as it ended.
pub proof fn law_finished_rebuild_stays_finished(rebuild: RebuildView, event: Event)
    requires
        rebuild.action() is Finish,
        rebuild.sound(),
    ensures
        rebuild.next(event) == rebuild,
{
    law_rebuild_goes_on_by_replies(rebuild, event);
}

/// A build, and a dry run, never asks for consent, never looks at who runs it, and never
/// activates, whatever it is told.
pub proof fn law_build_and_dry_run_never_activate(
    args: SystemRebuildArgs,
    variant: SystemRebuildVariant,
    events: Seq<Event>,
)
    requires
        args.common.dry || variant == SystemRebuildVariant::Build,
    ensures
        ({
            let action = RebuildView::start(args, variant).after(events).action();
            !(action is Confirm) && !(action is QueryUser) && !(action is Activate)
        }),
{
    lemma_reaches_sound(args, variant, events);
}

/// Without `--ask` there is no question.
pub proof fn law_no_question_unless_asked_for(
    args: SystemRebuildArgs,
    variant: SystemRebuildVariant,
    events: Seq<Event>,
)
    requires
        !args.common.ask,
    ensures
        !(RebuildView::start(args, variant).after(events).action() is Confirm),
{
    lemma_reaches_sound(args, variant, events);
}

/// With `--diff never` changes are neither looked for nor shown.
pub proof fn law_no_diff_if_never_wanted(
    args: SystemRebuildArgs,
    variant: SystemRebuildVariant,
    events: Seq<Event>,
)
    requires
        args.common.diff == DiffType::Never,
    ensures
        ({
            let action = RebuildView::start(args, variant).after(events).action();
            !(action is CheckPath) && !(action is ShowDiff)
        }),
{
    lemma_reaches_sound(args, variant, events);
}

/// Inputs are updated only if that was requested.
pub proof fn law_no_update_unless_requested(
    args: SystemRebuildArgs,
    variant: SystemRebuildVariant,
    events: Seq<Event>,
)
    requires
        !args.update_args.update_all,
        args.update_args.update_input is None,
    ensures
        !(RebuildView::start(args, variant).after(events).action() is Update),
{
    lemma_reaches_sound(args, variant, events);
}

/// A user who declines ends the rebuild, which says so.
pub proof fn law_declining_ends_the_rebuild(rebuild: RebuildView)
    requires
        rebuild.sound(),
        rebuild.action() is Confirm,
    ensures
        rebuild.next(Event::Confirmed { confirmed: false }).action() == (ActionView::Finish {
            outcome: OutcomeView::Refused { error: SystemErrorView::Rejected },
        }),
{
}

/// The steps from the choice of what to build on.
spec fn past_update(step: RebuildStepView) -> bool {
    ||| step is Selecting
    ||| step is Building
    ||| past_build(step)
}

/// The steps after the build.
spec fn past_build(step: RebuildStepView) -> bool {
    ||| step is CheckingProfile
    ||| step is ShowingDiff
    ||| step is Warning
    ||| step is Confirming
    ||| past_consent(step)
    ||| step == (RebuildStepView::Finished { outcome: OutcomeView::Success })
}

/// The steps after the user agreed, where that was needed.
spec fn past_consent(step: RebuildStepView) -> bool {
    step is ReadingUser || step is Activating
}

/// That a configuration was to be activated, and the rebuild ended in success.
spec fn switched(rebuild: RebuildView) -> bool {
    &&& activates(rebuild.args, rebuild.variant)
    &&& rebuild.step == (RebuildStepView::Finished { outcome: OutcomeView::Success })
}

/// What must have happened for a rebuild to have come so far.
spec fn earned(start: RebuildView, events: Seq<Event>) -> bool {
    let now = start.after(events);
    &&& past_update(now.step) && updates_inputs(now.args) ==> start.updated(events)
    &&& past_build(now.step) ==> start.built(events)
    &&& (past_consent(now.step) || switched(now)) && now.args.common.ask ==> start.agreed(events)
    &&& switched(now) ==> start.activated(events)
}

/// Which reply takes a rebuild past the update, the build, the consent and the activation.
proof fn lemma_one_event(now: RebuildView, event: Event)
    requires
        now.sound(),
    ensures
        ({
            let next = now.next(event);
            let asked = now.action();
            &&& past_update(next.step) && updates_inputs(now.args) ==> past_update(now.step) || (
            asked is Update && event is Done)
            &&& past_build(next.step) ==> past_build(now.step) || (asked is Build && event is Done)
            &&& (past_consent(next.step) || switched(next)) && now.args.common.ask ==> past_consent(
                now.step,
            ) || switched(now) || (asked is Confirm && event == (Event::Confirmed {
                confirmed: true,
            }))
            &&& switched(next) ==> switched(now) || (asked is Activate && event is Done)
        }),
{
}

proof fn lemma_history_grows(start: RebuildView, events: Seq<Event>)
    requires
        events.len() > 0,
    ensures
        start.updated(events.drop_last()) ==> start.updated(events),
        start.built(events.drop_last()) ==> start.built(events),
        start.agreed(events.drop_last()) ==> start.agreed(events),
        start.activated(events.drop_last()) ==> start.activated(events),
        ({
            let asked = start.after(events.drop_last()).action();
            &&& events.last() is Done && asked is Update ==> start.updated(events)
            &&& events.last() is Done && asked is Build ==> start.built(events)
            &&& events.last() == (Event::Confirmed { confirmed: true }) && asked is Confirm
                ==> start.agreed(events)
            &&& events.last() is Done && asked is Activate ==> start.activated(events)
        }),
{
    let before = events.drop_last();
    assert forall|i: int| 0 <= i < before.len() implies before[i] == #[trigger] events[i]
        && before.take(i) == events.take(i) by {
        assert(before.take(i) =~= events.take(i));
    }
    assert(events.take(events.len() - 1) =~= before);
    if start.updated(before) {
        let i = choose|i: int|
            0 <= i < before.len() && #[trigger] before[i] is Done && start.after(
                before.take(i),
            ).action() is Update;
        assert(events[i] is Done);
    }
    if start.built(before) {
        let i = choose|i: int|
            0 <= i < before.len() && #[trigger] before[i] is Done && start.after(
                before.take(i),
            ).action() is Build;
        assert(events[i] is Done);
    }
    if start.agreed(before) {
        let i = choose|i: int|
            0 <= i < before.len() && #[trigger] before[i] == (Event::Confirmed { confirmed: true })
                && start.after(before.take(i)).action() is Confirm;
        assert(events[i] == before[i]);
    }
    if start.activated(before) {
        let i = choose|i: int|
            0 <= i < before.len() && #[trigger] before[i] is Done && start.after(
                before.take(i),
            ).action() is Activate;
        assert(events[i] is Done);
    }
    assert(events[events.len() - 1] == events.last());
}

proof fn lemma_earned(args: SystemRebuildArgs, variant: SystemRebuildVariant, events: Seq<Event>)
    ensures
        earned(RebuildView::start(args, variant), events),
    decreases events.len(),
{
    let start = RebuildView::start(args, variant);
    if events.len() > 0 {
        let before = events.drop_last();
        lemma_earned(args, variant, before);
        lemma_reaches_sound(args, variant, before);
        lemma_history_grows(start, events);
        lemma_one_event(start.after(before), events.last());
        assert(start.after(events) == start.after(before).next(events.last()));
    }
}

/// Where inputs are to be updated, nothing is built before they are.
pub proof fn law_build_follows_update(
    args: SystemRebuildArgs,
    variant: SystemRebuildVariant,
    events: Seq<Event>,
)
    requires
        args.update_args.update_all || args.update_args.update_input is Some,
        RebuildView::start(args, variant).after(events).action() is Build,
    ensures
        RebuildView::start(args, variant).updated(events),
{
    lemma_earned(args, variant, events);
    lemma_reaches_sound(args, variant, events);
}

/// Nothing is activated unless that is the request, it was built, and, with `--ask`, the user
/// agreed.
pub proof fn law_activation_follows_build_and_consent(
    args: SystemRebuildArgs,
    variant: SystemRebuildVariant,
    events: Seq<Event>,
)
    requires
        RebuildView::start(args, variant).after(events).action() is Activate,
    ensures
        variant == SystemRebuildVariant::Switch,
        !args.common.dry,
        RebuildView::start(args, variant).built(events),
        args.common.ask ==> RebuildView::start(args, variant).agreed(events),
{
    lemma_earned(args, variant, events);
    lemma_reaches_sound(args, variant, events);
}

/// A rebuild that ends in success was built, and was activated unless it was a build or a dry run.
pub proof fn law_success_is_earned(
    args: SystemRebuildArgs,
    variant: SystemRebuildVariant,
    events: Seq<Event>,
)
    requires
        RebuildView::start(args, variant).after(events).action() == (ActionView::Finish {
            outcome: OutcomeView::Success,
        }),
    ensures
        RebuildView::start(args, variant).built(events),
        variant == SystemRebuildVariant::Switch && !args.common.dry ==> RebuildView::start(
            args,
            variant,
        ).activated(events),
        variant == SystemRebuildVariant::Switch && !args.common.dry && args.common.ask
            ==> RebuildView::start(args, variant).agreed(events),
{
    lemma_earned(args, variant, events);
    lemma_reaches_sound(args, variant, events);
}

/// A failure ends a rebuild, which says at what stage; only a candidate that does not evaluate, and
/// changes that cannot be shown, are passed over.
pub proof fn law_failure_ends_the_rebuild(rebuild: RebuildView)
    requires
        rebuild.sound(),
        stage_of(rebuild.action()) is Some,
    ensures
        rebuild.next(Event::Failed).action() == (ActionView::Finish {
            outcome: OutcomeView::Failed { stage: stage_of(rebuild.action())->0 },
        }),
{
}

/// A rebuild reports a failure only if what it asked for failed, and a rejection only if the user,
/// asked to agree, declined.
pub proof fn law_outcomes_have_their_cause(rebuild: RebuildView, event: Event)
    requires
        rebuild.sound(),
        !(rebuild.action() is Finish),
        rebuild.next(event).action() is Finish,
    ensures
        match rebuild.next(event).action()->outcome {
            OutcomeView::Success => !(event is Failed) || rebuild.action() is ShowDiff,
            OutcomeView::Failed { stage } => event is Failed && stage_of(rebuild.action()) == Some(
                stage,
            ),
            OutcomeView::Refused { error } => error is Rejected <==> rebuild.action() is Confirm
                && event == (Event::Confirmed { confirmed: false }),
        },
{
}

/// That changes cannot be shown makes no difference.
pub proof fn law_failing_diff_is_passed_over(rebuild: RebuildView)
    requires
        rebuild.sound(),
        rebuild.action() is ShowDiff,
    ensures
        rebuild.next(Event::Failed) == rebuild.next(Event::Done),
{
}

/// The activation asks for the rights of root unless root runs it.
pub proof fn law_only_others_than_root_are_elevated(rebuild: RebuildView, uid: u32)
    requires
        rebuild.sound(),
        rebuild.action() is QueryUser,
    ensures
        rebuild.next(Event::User { uid }).action() is Activate,
        rebuild.next(Event::User { uid }).action()->Activate_command.elevate == (uid != 0),
{
}

/// Where the result is linked, while that matters.
spec fn link(step: RebuildStepView) -> Option<Seq<u8>> {
    match step {
        RebuildStepView::Resolving { out_path }
        | RebuildStepView::FindingDefault { out_path }
        | RebuildStepView::Updating { out_path, .. }
        | RebuildStepView::Selecting { out_path, .. }
        | RebuildStepView::Building { out_path, .. }
        | RebuildStepView::CheckingProfile { out_path }
        | RebuildStepView::ShowingDiff { out_path }
        | RebuildStepView::Confirming { out_path }
        | RebuildStepView::ReadingUser { out_path }
        | RebuildStepView::Activating { out_path, .. } => Some(out_path),
        _ => None,
    }
}

/// That the result is linked from `out_path`, or no longer matters.
spec fn links(rebuild: RebuildView, out_path: Seq<u8>) -> bool {
    ||| link(rebuild.step) == Some(out_path)
    ||| rebuild.step is Warning
    ||| rebuild.step is Finished
}

proof fn lemma_link_stays(rebuild: RebuildView, out_path: Seq<u8>, events: Seq<Event>)
    requires
        links(rebuild, out_path),
    ensures
        links(rebuild.after(events), out_path),
    decreases events.len(),
{
    if events.len() > 0 {
        lemma_link_stays(rebuild, out_path, events.drop_last());
    }
}

proof fn lemma_after_splits(rebuild: RebuildView, events: Seq<Event>, i: int)
    requires
        0 <= i <= events.len(),
    ensures
        rebuild.after(events) == rebuild.after(events.take(i)).after(events.skip(i)),
    decreases events.len() - i,
{
    if i == events.len() {
        assert(events.take(i) =~= events);
        assert(events.skip(i) =~= Seq::empty());
    } else {
        let before = events.drop_last();
        lemma_after_splits(rebuild, before, i);
        assert(before.take(i) =~= events.take(i));
        assert(events.skip(i).drop_last() =~= before.skip(i));
        assert(events.skip(i).last() == events.last());
    }
}

/// What is activated is what was built: the activation runs from where the build linked its
/// result.
pub proof fn law_activates_what_was_built(
    args: SystemRebuildArgs,
    variant: SystemRebuildVariant,
    events: Seq<Event>,
    i: int,
)
    requires
        0 <= i <= events.len(),
        RebuildView::start(args, variant).after(events.take(i)).action() is Build,
        RebuildView::start(args, variant).after(events).action() is Activate,
    ensures
        RebuildView::start(args, variant).after(events).action()->Activate_command.program
            == path_join(
            RebuildView::start(args, variant).after(events.take(i)).action()->request.args[1],
            encode_utf8("bin/activate"@),
        ),
{
    let start = RebuildView::start(args, variant);
    let building = start.after(events.take(i));
    lemma_reaches_sound(args, variant, events.take(i));
    lemma_reaches_sound(args, variant, events);
    lemma_after_splits(start, events, i);
    lemma_link_stays(building, link(building.step)->0, events.skip(i));
}

/// A link that the user names is the one used: no directory is created, the build links its result
/// there, and the activation runs from there.
pub proof fn law_named_link_is_used(
    args: SystemRebuildArgs,
    variant: SystemRebuildVariant,
    events: Seq<Event>,
)
    requires
        args.common.out_link is Some,
    ensures
        ({
            let action = RebuildView::start(args, variant).after(events).action();
            let named = args.common.out_link->0@;
            &&& !(action is CreateTempDir)
            &&& action is Build ==> action->request.args[1] == named
            &&& action is Activate ==> action->Activate_command.program == path_join(
                named,
                encode_utf8("bin/activate"@),
            )
        }),
{
    lemma_reaches_sound(args, variant, events);
    lemma_link_stays(RebuildView::start(args, variant), args.common.out_link->0@, events);
}

/// A rebuild begins by creating a directory unless a link is named, and then has what the user
/// named completed; each ends it if it fails.
pub proof fn law_rebuild_begins_with_what_was_named(
    args: SystemRebuildArgs,
    variant: SystemRebuildVariant,
    events: Seq<Event>,
    path: OsText,
)
    ensures
        ({
            let start = RebuildView::start(args, variant);
            let now = start.after(events);
            let named = ActionView::Resolve { installable: args.common.installable@ };
            &&& match args.common.out_link {
                Some(_) => start.action() == named,
                None => start.action() is CreateTempDir,
            }
            &&& now.action() is CreateTempDir ==> {
                &&& now.action() == (ActionView::CreateTempDir { prefix: "nh-system"@ })
                &&& now.next(Event::Directory { path }).action() == named
                &&& now.next(Event::Failed).action() == (ActionView::Finish {
                    outcome: OutcomeView::Failed { stage: Stage::CreateTempDir },
                })
            }
            &&& now.action() is Resolve ==> {
                &&& now.action() == named
                &&& now.next(
                    Event::Resolved { installable: Installable::Unspecified },
                ).action() is FindDefault
                &&& now.next(Event::Failed).action() == (ActionView::Finish {
                    outcome: OutcomeView::Failed { stage: Stage::Resolve },
                })
            }
            &&& now.action() is FindDefault ==> now.next(Event::Failed).action() == (
            ActionView::Finish { outcome: OutcomeView::Failed { stage: Stage::FindDefault } })
        }),
{
    lemma_reaches_sound(args, variant, events);
}

/// Where inputs are to be updated, what is updated is what was just found, with the inputs and the
/// choice to commit that the user gave; if that fails, the rebuild is over.
pub proof fn law_what_was_found_is_updated(
    args: SystemRebuildArgs,
    variant: SystemRebuildVariant,
    events: Seq<Event>,
    installable: Installable,
)
    requires
        args.update_args.update_all || args.update_args.update_input is Some,
        !(installable is Unspecified),
        ({
            let action = RebuildView::start(args, variant).after(events).action();
            action is Resolve || action is FindDefault
        }),
    ensures
        ({
            let updating = RebuildView::start(args, variant).after(events).next(
                Event::Resolved { installable },
            );
            &&& updating.action() is Update
            &&& updating.action()->Update_installable == installable@
            &&& updating.action()->commit_lock_file == args.common.passthrough.commit_lock_file
            &&& match args.update_args.update_input {
                Some(input) => updating.action()->input == Some(input.deep_view()),
                None => updating.action()->input is None,
            }
            &&& updating.next(Event::Failed).action() == (ActionView::Finish {
                outcome: OutcomeView::Failed { stage: Stage::Update },
            })
        }),
{
    lemma_reaches_sound(args, variant, events);
}

/// Whenever an update is asked for, it is one of what the last reply that named something named:
/// since that reply nothing but the update was asked for.
pub proof fn law_update_is_of_what_was_found_last(
    args: SystemRebuildArgs,
    variant: SystemRebuildVariant,
    events: Seq<Event>,
) -> (i: int)
    requires
        RebuildView::start(args, variant).after(events).action() is Update,
    ensures
        0 <= i < events.len(),
        ({
            let start = RebuildView::start(args, variant);
            let asked = start.after(events.take(i)).action();
            &&& asked is Resolve || asked is FindDefault
            &&& events[i] is Resolved
            &&& !(events[i]->installable is Unspecified)
            &&& start.after(events).action()->Update_installable == events[i]->installable@
            &&& forall|j: int|
                i < j <= events.len() ==> start.after(#[trigger] events.take(j)).action() is Update
        }),
    decreases events.len(),
{
    let start = RebuildView::start(args, variant);
    let before = events.drop_last();
    lemma_reaches_sound(args, variant, events);
    lemma_reaches_sound(args, variant, before);
    assert(events.take(events.len() as int) =~= events);
    if start.after(before).action() is Update {
        let i = law_update_is_of_what_was_found_last(args, variant, before);
        law_rebuild_goes_on_by_replies(start.after(before), events.last());
        assert(before.take(i) =~= events.take(i));
        assert(before[i] == events[i]);
        assert forall|j: int| i < j <= events.len() implies start.after(
            #[trigger] events.take(j),
        ).action() is Update by {
            if j < events.len() {
                assert(before.take(j) =~= events.take(j));
            }
        }
        i
    } else {
        let i = events.len() - 1;
        assert(events.take(i) =~= before);
        assert forall|j: int| i < j <= events.len() implies start.after(
            #[trigger] events.take(j),
        ).action() is Update by {
            assert(events.take(j) =~= events);
        }
        i
    }
}

proof fn lemma_choice_is_followed(
    rebuild: RebuildView,
    out_path: Seq<u8>,
    choice: SelectionView,
    replies: Seq<Event>,
)
    requires
        rebuild.step == selecting(out_path, choice),
        replies.len() > 0 ==> choice.after(replies.drop_last()).action() is Some,
    ensures
        rebuild.after(replies).step == selecting(out_path, choice.after(replies)),
        rebuild.after(replies).args == rebuild.args,
    decreases replies.len(),
{
    if replies.len() > 0 {
        let before = replies.drop_last();
        if before.len() > 0 {
            law_choice_heeds_answers_only(choice.after(before.drop_last()), before.last());
        }
        lemma_choice_is_followed(rebuild, out_path, choice, before);
    }
}

/// Once it is known what to start from, and its inputs are updated where that is wanted, a rebuild
/// chooses what to build exactly as the choice from that installable, with the host name and the
/// extra arguments that the user gave, does: it asks what the choice asks, builds what is chosen,
/// and ends as the choice does if it fails or is refused.
pub proof fn law_rebuild_follows_the_choice(
    args: SystemRebuildArgs,
    variant: SystemRebuildVariant,
    events: Seq<Event>,
    event: Event,
    installable: InstallableView,
    replies: Seq<Event>,
)
    requires
        !(installable is Unspecified),
        ({
            let asked = RebuildView::start(args, variant).after(events).action();
            ||| {
                &&& asked is Resolve || asked is FindDefault
                &&& event is Resolved
                &&& event->installable@ == installable
                &&& !args.update_args.update_all
                &&& args.update_args.update_input is None
            }
            ||| asked is Update && asked->Update_installable == installable && event is Done
        }),
        replies.len() > 0 ==> SelectionView::start(
            installable,
            args.hostname.deep_view(),
            args.extra_args.deep_view(),
        ).after(replies.drop_last()).action() is Some,
    ensures
        ({
            let choice = SelectionView::start(
                installable,
                args.hostname.deep_view(),
                args.extra_args.deep_view(),
            ).after(replies);
            let action = RebuildView::start(args, variant).after(events).next(event).after(
                replies,
            ).action();
            match choice.action() {
                Some(asked) => action == asked,
                None => match choice.step {
                    SelectionStepView::Selected { installable: target } => {
                        action is Build && action->request.target == target
                    },
                    SelectionStepView::Failed { stage } => action == (ActionView::Finish {
                        outcome: OutcomeView::Failed { stage },
                    }),
                    SelectionStepView::Refused { error } => action == (ActionView::Finish {
                        outcome: OutcomeView::Refused { error },
                    }),
                    _ => false,
                },
            }
        }),
{
    let now = RebuildView::start(args, variant).after(events);
    let choice = SelectionView::start(
        installable,
        args.hostname.deep_view(),
        args.extra_args.deep_view(),
    );
    lemma_reaches_sound(args, variant, events);
    lemma_choice_is_followed(now.next(event), link(now.step)->0, choice, replies);
}

/// Every build links its result with `--out-link`, passes every extra argument on, in order, and
/// has the options passed through and the output that the user wants.
pub proof fn law_build_is_the_one_requested(
    args: SystemRebuildArgs,
    variant: SystemRebuildVariant,
    events: Seq<Event>,
)
    requires
        RebuildView::start(args, variant).after(events).action() is Build,
    ensures
        ({
            let request = RebuildView::start(args, variant).after(events).action()->request;
            &&& request.args.len() == 2 + args.extra_args@.len()
            &&& request.args[0] == encode_utf8("--out-link"@)
            &&& forall|i: int|
                0 <= i < args.extra_args@.len() ==> request.args[2 + i] == encode_utf8(
                    (#[trigger] args.extra_args@[i])@,
                )
            &&& request.passthrough.commit_lock_file == args.common.passthrough.commit_lock_file
            &&& request.nom == !args.common.no_nom
            &&& request.message == "Building System Manager configuration"@
        }),
{
    lemma_reaches_sound(args, variant, events);
}

/// That `action` is what follows once a configuration is built and the changes are shown or need
/// not be: to switch, the question with `--ask` and the user who runs it without; otherwise, a
/// warning with `--ask` and success without.
pub open spec fn follows_the_diff(
    args: SystemRebuildArgs,
    variant: SystemRebuildVariant,
    action: ActionView,
) -> bool {
    match (variant, args.common.dry, args.common.ask) {
        (SystemRebuildVariant::Switch, false, true) => action == (ActionView::Confirm {
            question: "Apply the config?"@,
            default: false,
        }),
        (SystemRebuildVariant::Switch, false, false) => action is QueryUser,
        (_, _, true) => action == (ActionView::Warn {
            message: "--ask has no effect as dry run was requested"@,
        }),
        (_, _, false) => action == (ActionView::Finish { outcome: OutcomeView::Success }),
    }
}

/// What follows a build, and whether there is an active configuration to compare with: changes are
/// shown unless they are never wanted or there is nothing to compare with, and the rebuild goes on
/// either way, also if they cannot be shown. Only a build that fails ends it.
pub proof fn law_rebuild_goes_on_after_the_build(
    args: SystemRebuildArgs,
    variant: SystemRebuildVariant,
    events: Seq<Event>,
)
    ensures
        ({
            let now = RebuildView::start(args, variant).after(events);
            &&& now.action() is Build ==> {
                &&& args.common.diff is Never ==> follows_the_diff(
                    args,
                    variant,
                    now.next(Event::Done).action(),
                )
                &&& !(args.common.diff is Never) ==> now.next(Event::Done).action() == (
                ActionView::CheckPath {
                    path: encode_utf8(
                        "/nix/var/nix/profiles/system-manager-profiles/system-manager"@,
                    ),
                })
                &&& now.next(Event::Failed).action() == (ActionView::Finish {
                    outcome: OutcomeView::Failed { stage: Stage::Build },
                })
            }
            &&& now.action() is CheckPath ==> {
                let shown = now.next(Event::Exists { exists: true }).action();
                &&& shown is ShowDiff
                &&& shown->before == encode_utf8(
                    "/nix/var/nix/profiles/system-manager-profiles/system-manager"@,
                )
                &&& follows_the_diff(
                    args,
                    variant,
                    now.next(Event::Exists { exists: false }).action(),
                )
            }
            &&& now.action() is ShowDiff ==> {
                &&& follows_the_diff(args, variant, now.next(Event::Done).action())
                &&& follows_the_diff(args, variant, now.next(Event::Failed).action())
            }
        }),
{
    lemma_reaches_sound(args, variant, events);
}

/// What follows the question, the user and the activation: agreement leads on, refusal ends in a
/// rejection; the activation runs without arguments, in the view that the user wants, with the
/// rights of root unless root runs it; and it ends in success if it succeeds.
pub proof fn law_rebuild_goes_on_to_activate(
    args: SystemRebuildArgs,
    variant: SystemRebuildVariant,
    events: Seq<Event>,
    uid: u32,
)
    ensures
        ({
            let now = RebuildView::start(args, variant).after(events);
            &&& now.action() is Warn ==> now.next(Event::Done).action() == (ActionView::Finish {
                outcome: OutcomeView::Success,
            })
            &&& now.action() is Confirm ==> {
                &&& now.next(Event::Confirmed { confirmed: true }).action() is QueryUser
                &&& now.next(Event::Confirmed { confirmed: false }).action() == (
                ActionView::Finish {
                    outcome: OutcomeView::Refused { error: SystemErrorView::Rejected },
                })
                &&& now.next(Event::Failed).action() == (ActionView::Finish {
                    outcome: OutcomeView::Failed { stage: Stage::Confirm },
                })
            }
            &&& now.action() is QueryUser ==> {
                let activating = now.next(Event::User { uid }).action();
                &&& activating is Activate
                &&& activating->Activate_command.elevate == (uid != 0)
            }
            &&& now.action() is Activate ==> {
                let command = now.action()->Activate_command;
                &&& command.args.len() == 0
                &&& command.message == Some("Activating configuration"@)
                &&& command.show_output == args.show_activation_logs
                &&& command.required_env
                &&& now.next(Event::Done).action() == (ActionView::Finish {
                    outcome: OutcomeView::Success,
                })
                &&& now.next(Event::Failed).action() == (ActionView::Finish {
                    outcome: OutcomeView::Failed { stage: Stage::Activate },
                })
            }
        }),
{
    lemma_reaches_sound(args, variant, events);
}

/// That `rebuild` is past its build and, if it is over, ended as a rebuild can that was built.
spec fn ends_well_or_declined(rebuild: RebuildView) -> bool {
    match rebuild.step {
        RebuildStepView::Finished { outcome: OutcomeView::Refused { error } } => error is Rejected,
        RebuildStepView::Finished { outcome: OutcomeView::Failed { stage } } => stage
            == Stage::Confirm || stage == Stage::Activate,
        step => past_build(step),
    }
}

/// Once a build succeeded, a rebuild is refused only by the user, and fails only in asking or in
/// activating.
pub proof fn law_only_the_user_refuses_what_was_built(
    args: SystemRebuildArgs,
    variant: SystemRebuildVariant,
    events: Seq<Event>,
    i: int,
)
    requires
        0 <= i < events.len(),
        RebuildView::start(args, variant).after(events.take(i)).action() is Build,
        events[i] is Done,
    ensures
        ({
            let action = RebuildView::start(args, variant).after(events).action();
            action is Finish ==> match action->outcome {
                OutcomeView::Success => true,
                OutcomeView::Refused { error } => error is Rejected,
                OutcomeView::Failed { stage } => stage == Stage::Confirm || stage
                    == Stage::Activate,
            }
        }),
    decreases events.len(),
{
    lemma_built_ends(args, variant, events, i);
}

proof fn lemma_built_ends(
    args: SystemRebuildArgs,
    variant: SystemRebuildVariant,
    events: Seq<Event>,
    i: int,
)
    requires
        0 <= i < events.len(),
        RebuildView::start(args, variant).after(events.take(i)).action() is Build,
        events[i] is Done,
    ensures
        ends_well_or_declined(RebuildView::start(args, variant).after(events)),
    decreases events.len(),
{
    let before = events.drop_last();
    lemma_reaches_sound(args, variant, before);
    if i == events.len() - 1 {
        assert(events.take(i) =~= before);
    } else {
        assert(before.take(i) =~= events.take(i));
        lemma_built_ends(args, variant, before, i);
    }
}

/// Where no link is named, the result is linked as `result` in the directory that was created:
/// there the build links it, from there changes are shown, and from there the activation runs.
pub proof fn law_directory_holds_the_link(
    args: SystemRebuildArgs,
    variant: SystemRebuildVariant,
    events: Seq<Event>,
    i: int,
)
    requires
        0 <= i < events.len(),
        RebuildView::start(args, variant).after(events.take(i)).action() is CreateTempDir,
        events[i] is Directory,
    ensures
        ({
            let action = RebuildView::start(args, variant).after(events).action();
            let linked = path_join(events[i]->Directory_path@, encode_utf8("result"@));
            &&& !(action is CreateTempDir)
            &&& action is Build ==> action->request.args[1] == linked
            &&& action is ShowDiff ==> action->after == linked
            &&& action is Activate ==> action->Activate_command.program == path_join(
                linked,
                encode_utf8("bin/activate"@),
            )
        }),
{
    let start = RebuildView::start(args, variant);
    let linked = path_join(events[i]->Directory_path@, encode_utf8("result"@));
    lemma_reaches_sound(args, variant, events.take(i));
    lemma_reaches_sound(args, variant, events);
    assert(events.take(i + 1).drop_last() =~= events.take(i));
    lemma_after_splits(start, events, i + 1);
    lemma_link_stays(start.after(events.take(i + 1)), linked, events.skip(i + 1));
}

/// What changes is shown against the link that the user named.
pub proof fn law_diff_is_against_the_named_link(
    args: SystemRebuildArgs,
    variant: SystemRebuildVariant,
    events: Seq<Event>,
)
    requires
        args.common.out_link is Some,
        RebuildView::start(args, variant).after(events).action() is ShowDiff,
    ensures
        RebuildView::start(args, variant).after(events).action()->after
            == args.common.out_link->0.bytes@,
{
    lemma_reaches_sound(args, variant, events);
    lemma_link_stays(RebuildView::start(args, variant), args.common.out_link->0@, events);
}

/// A rebuild heeds only what answers what it asked; anything else leaves it exactly as it is, and
/// once it is over, so does everything.
pub proof fn law_rebuild_heeds_answers_only(
    args: SystemRebuildArgs,
    variant: SystemRebuildVariant,
    events: Seq<Event>,
    event: Event,
)
    ensures
        ({
            let now = RebuildView::start(args, variant).after(events);
            ||| now.next(event) == now
            ||| match now.action() {
                ActionView::CreateTempDir { .. } => event is Directory || event is Failed,
                ActionView::Resolve { .. } => event is Resolved || event is Failed,
                ActionView::FindDefault => {
                    ||| event is Resolved && !(event->installable is Unspecified)
                    ||| event is Failed
                },
                ActionView::QuerySystem { .. } => event is Captured || event is Failed,
                ActionView::QueryHostname { .. } => event is Hostname || event is Failed,
                ActionView::ListArguments { .. } => event is Arguments,
                ActionView::CheckPath { .. } => event is Exists,
                ActionView::Warn { .. } => event is Done,
                ActionView::Confirm { .. } => event is Confirmed || event is Failed,
                ActionView::QueryUser => event is User,
                ActionView::Update { .. }
                | ActionView::Evaluate { .. }
                | ActionView::Build { .. }
                | ActionView::ShowDiff { .. }
                | ActionView::Activate { .. } => event is Done || event is Failed,
                ActionView::OpenRepl { .. } | ActionView::Finish { .. } => false,
            }
        }),
{
    lemma_reaches_sound(args, variant, events);
    law_rebuild_goes_on_by_replies(RebuildView::start(args, variant).after(events), event);
}

} // verus!

//! What holds of every run.
use crate::args::{SystemArgs, SystemRebuildArgs, SystemReplArgs, SystemSubcommand};
use crate::rebuild::{RebuildView, SystemRebuildVariant};
use crate::rebuild_laws::{
    law_rebuild_goes_on_by_replies, law_rebuild_starts_sound, law_rebuild_stays_sound,
};
use crate::repl::ReplView;
use crate::repl_laws::{law_repl_goes_on_by_replies, law_repl_stays_sound};
use crate::session::{is_reply, ActionView, Event};
use crate::system::SystemRunView;
use vstd::prelude::*;

verus! {

impl SystemRunView {
    /// The run after `events`, in order.
    pub open spec fn after(self, events: Seq<Event>) -> Self
        decreases events.len(),
    {
        if events.len() == 0 {
            self
        } else {
            self.after(events.drop_last()).next(events.last())
        }
    }

    /// How many replies the run can still take.
    pub open spec fn rank(self) -> nat {
        match self {
            SystemRunView::Warning { .. } => 21,
            SystemRunView::Rebuilding { rebuild } => rebuild.rank(),
            SystemRunView::Loading { repl } => repl.rank(),
        }
    }

    /// That the run fits the request it was started for.
    pub open spec fn serves(self, request: SystemArgs) -> bool {
        match (self, request.subcommand) {
            (SystemRunView::Warning { args }, SystemSubcommand::Build(requested)) => args
                == requested && (args.common.ask || args.common.dry),
            (SystemRunView::Rebuilding { rebuild }, SystemSubcommand::Switch(requested)) => {
                &&& rebuild.args == requested
                &&& rebuild.variant == SystemRebuildVariant::Switch
                &&& rebuild.sound()
            },
            (SystemRunView::Rebuilding { rebuild }, SystemSubcommand::Build(requested)) => {
                &&& rebuild.args == requested
                &&& rebuild.variant == SystemRebuildVariant::Build
                &&& rebuild.sound()
            },
            (SystemRunView::Loading { repl }, SystemSubcommand::Repl(requested)) => {
                &&& repl.args == requested
                &&& repl.sound()
            },
            _ => false,
        }
    }

    /// That each of `events` came as a reply, until the run was over.
    pub open spec fn are_replies(self, events: Seq<Event>) -> bool {
        forall|i: int|
            0 <= i < events.len() ==> {
                let action = self.after(events.take(i)).action();
                action is Finish || is_reply(action, #[trigger] events[i])
            }
    }
}

/// Whatever a run is told, it serves the request it was started for.
pub proof fn law_run_serves_its_request(args: SystemArgs, events: Seq<Event>)
    ensures
        SystemRunView::start(args).after(events).serves(args),
    decreases events.len(),
{
    if events.len() > 0 {
        let before = SystemRunView::start(args).after(events.drop_last());
        law_run_serves_its_request(args, events.drop_last());
        match before {
            SystemRunView::Warning { args: requested } => {
                law_rebuild_starts_sound(requested, SystemRebuildVariant::Build);
            },
            SystemRunView::Rebuilding { rebuild } => {
                law_rebuild_stays_sound(rebuild, events.last());
            },
            SystemRunView::Loading { repl } => {
                law_repl_stays_sound(repl, events.last());
            },
        }
    }
}

/// A reply brings a run closer to its end; anything else leaves it as it is.
pub proof fn law_run_goes_on_by_replies(run: SystemRunView, args: SystemArgs, event: Event)
    requires
        run.serves(args),
    ensures
        if is_reply(run.action(), event) {
            run.next(event).rank() < run.rank()
        } else {
            run.next(event) == run
        },
{
    match run {
        SystemRunView::Warning { args: requested } => {
            law_rebuild_starts_sound(requested, SystemRebuildVariant::Build);
        },
        SystemRunView::Rebuilding { rebuild } => {
            law_rebuild_goes_on_by_replies(rebuild, event);
        },
        SystemRunView::Loading { repl } => {
            law_repl_goes_on_by_replies(repl, event);
        },
    }
}

proof fn lemma_replies_count(args: SystemArgs, events: Seq<Event>)
    requires
        SystemRunView::start(args).are_replies(events),
    ensures
        ({
            let run = SystemRunView::start(args).after(events);
            run.action() is Finish || run.rank() + events.len() <= 21
        }),
    decreases events.len(),
{
    let start = SystemRunView::start(args);
    if events.len() > 0 {
        let before = events.drop_last();
        assert forall|i: int| 0 <= i < before.len() implies {
            let action = start.after(before.take(i)).action();
            action is Finish || is_reply(action, #[trigger] before[i])
        } by {
            assert(before.take(i) =~= events.take(i));
            assert(before[i] == events[i]);
        }
        lemma_replies_count(args, before);
        law_run_serves_its_request(args, before);
        law_run_goes_on_by_replies(start.after(before), args, events.last());
        assert(events.take(events.len() - 1) =~= before);
        assert(events[events.len() - 1] == events.last());
    }
}

/// Every run comes to an end: twenty-one replies are enough.
pub proof fn law_every_run_ends(args: SystemArgs, events: Seq<Event>)
    requires
        SystemRunView::start(args).are_replies(events),
        events.len() >= 21,
    ensures
        SystemRunView::start(args).after(events).action() is Finish,
{
    lemma_replies_count(args, events);
    law_run_serves_its_request(args, events);
}

/// A run that is over stays as it ended.
pub proof fn law_finished_run_stays_finished(run: SystemRunView, args: SystemArgs, event: Event)
    requires
        run.serves(args),
        run.action() is Finish,
    ensures
        run.next(event) == run,
{
    law_run_goes_on_by_replies(run, args, event);
}

/// Only `switch` activates a configuration, and not with `--dry`; with `--ask` it asks first, and
/// nothing else does.
pub proof fn law_only_switch_activates(args: SystemArgs, events: Seq<Event>)
    ensures
        ({
            let action = SystemRunView::start(args).after(events).action();
            &&& action is Activate ==> args.subcommand is Switch
                && !args.subcommand->Switch_0.common.dry
            &&& action is Confirm ==> args.subcommand is Switch
                && !args.subcommand->Switch_0.common.dry && args.subcommand->Switch_0.common.ask
        }),
{
    law_run_serves_its_request(args, events);
}

/// A REPL is opened for `repl` alone, and builds are made for the others alone.
pub proof fn law_repl_and_builds_are_apart(args: SystemArgs, events: Seq<Event>)
    ensures
        ({
            let action = SystemRunView::start(args).after(events).action();
            &&& action is OpenRepl ==> args.subcommand is Repl
            &&& action is Build || action is Update ==> !(args.subcommand is Repl)
        }),
{
    law_run_serves_its_request(args, events);
}

/// `build` begins with a warning exactly if `--ask` or `--dry` is given, which it has no use for.
pub proof fn law_build_warns_of_idle_options(args: SystemArgs)
    requires
        args.subcommand is Build,
    ensures
        SystemRunView::start(args).action() is Warn <==> (args.subcommand->Build_0.common.ask
            || args.subcommand->Build_0.common.dry),
{
}

/// A run of `switch` asks what the rebuild that builds and activates asks, event by event.
pub proof fn law_switch_is_a_rebuild(args: SystemRebuildArgs, events: Seq<Event>)
    ensures
        SystemRunView::start(SystemArgs { subcommand: SystemSubcommand::Switch(args) }).after(
            events,
        ).action() == RebuildView::start(args, SystemRebuildVariant::Switch).after(events).action(),
{
    lemma_rebuild_is_followed(
        SystemRunView::start(SystemArgs { subcommand: SystemSubcommand::Switch(args) }),
        RebuildView::start(args, SystemRebuildVariant::Switch),
        events,
    );
}

/// A run of `build` asks what the rebuild that only builds asks, event by event; if `--ask` or
/// `--dry` is given, it first warns that they have no effect, until it is told that this is done.
pub proof fn law_build_is_a_rebuild(args: SystemRebuildArgs, event: Event, events: Seq<Event>)
    ensures
        ({
            let start = SystemRunView::start(
                SystemArgs { subcommand: SystemSubcommand::Build(args) },
            );
            let rebuild = RebuildView::start(args, SystemRebuildVariant::Build);
            if args.common.ask || args.common.dry {
                &&& start.action() == (ActionView::Warn {
                    message: "`--ask` and `--dry` have no effect for `nh system build`"@,
                })
                &&& event is Done ==> start.next(event).after(events).action() == rebuild.after(
                    events,
                ).action()
                &&& !(event is Done) ==> start.next(event) == start
            } else {
                start.after(events).action() == rebuild.after(events).action()
            }
        }),
{
    let start = SystemRunView::start(SystemArgs { subcommand: SystemSubcommand::Build(args) });
    let rebuild = RebuildView::start(args, SystemRebuildVariant::Build);
    if args.common.ask || args.common.dry {
        if event is Done {
            lemma_rebuild_is_followed(start.next(event), rebuild, events);
        }
    } else {
        lemma_rebuild_is_followed(start, rebuild, events);
    }
}

proof fn lemma_rebuild_is_followed(run: SystemRunView, rebuild: RebuildView, events: Seq<Event>)
    requires
        run == (SystemRunView::Rebuilding { rebuild }),
    ensures
        run.after(events) == (SystemRunView::Rebuilding { rebuild: rebuild.after(events) }),
    decreases events.len(),
{
    if events.len() > 0 {
        lemma_rebuild_is_followed(run, rebuild, events.drop_last());
    }
}

/// A run of `repl` asks what the loading asks, event by event.
pub proof fn law_repl_is_a_loading(args: SystemReplArgs, events: Seq<Event>)
    ensures
        SystemRunView::start(SystemArgs { subcommand: SystemSubcommand::Repl(args) }).after(
            events,
        ).action() == ReplView::start(args).after(events).action(),
{
    lemma_loading_is_followed(args, events);
}

proof fn lemma_loading_is_followed(args: SystemReplArgs, events: Seq<Event>)
    ensures
        SystemRunView::start(SystemArgs { subcommand: SystemSubcommand::Repl(args) }).after(events)
            == (SystemRunView::Loading { repl: ReplView::start(args).after(events) }),
    decreases events.len(),
{
    if events.len() > 0 {
        lemma_loading_is_followed(args, events.drop_last());
    }
}

} // verus!

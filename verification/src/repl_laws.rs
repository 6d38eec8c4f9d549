//! What holds of every loading in a REPL.
use crate::args::SystemReplArgs;
use crate::error::SystemErrorView;
use crate::installable::Installable;
use crate::os_text::OsText;
use crate::repl::{selecting, ReplStepView, ReplView};
use crate::select::{SelectionStepView, SelectionView};
use crate::select_laws::{law_choice_heeds_answers_only, law_selection_goes_on_by_replies};
use crate::session::{is_reply, stage_of, ActionView, Event, OutcomeView, Stage};
use vstd::prelude::*;
use vstd::utf8::encode_utf8;

verus! {

impl ReplView {
    /// The loading after `events`, in order.
    pub open spec fn after(self, events: Seq<Event>) -> Self
        decreases events.len(),
    {
        if events.len() == 0 {
            self
        } else {
            self.after(events.drop_last()).next(events.last())
        }
    }

    /// How many replies the loading can still take.
    pub open spec fn rank(self) -> nat {
        match self.step {
            ReplStepView::Resolving => 14,
            ReplStepView::FindingDefault => 13,
            ReplStepView::Selecting { selection } => 2 + selection.rank(),
            ReplStepView::Listing { .. } => 2,
            ReplStepView::Running { .. } => 1,
            ReplStepView::Finished { .. } => 0,
        }
    }

    /// That a choice under way is still open, and that no store path is chosen.
    pub open spec fn sound(self) -> bool {
        match self.step {
            ReplStepView::Selecting { selection } => {
                &&& selection.action() is Some
                &&& selection.step is Listing ==> selection.step->Listing_candidate is Flake
                &&& selection.step is Evaluating ==> selection.step->Evaluating_candidate is Flake
            },
            ReplStepView::Listing { target } => !(target is Store),
            _ => true,
        }
    }

    /// That among `events` the loading was told that the REPL ended well.
    pub open spec fn ran(self, events: Seq<Event>) -> bool {
        exists|i: int|
            0 <= i < events.len() && #[trigger] events[i] is Done && self.after(
                events.take(i),
            ).action() is OpenRepl
    }
}

/// Every event keeps a loading sound, and keeps the request.
pub proof fn law_repl_stays_sound(repl: ReplView, event: Event)
    requires
        repl.sound(),
    ensures
        repl.next(event).sound(),
        repl.next(event).args == repl.args,
{
}

/// A reply brings a loading closer to its end; anything else leaves it as it is.
pub proof fn law_repl_goes_on_by_replies(repl: ReplView, event: Event)
    requires
        repl.sound(),
    ensures
        if is_reply(repl.action(), event) {
            repl.next(event).rank() < repl.rank()
        } else {
            repl.next(event) == repl
        },
{
    if let ReplStepView::Selecting { selection } = repl.step {
        law_selection_goes_on_by_replies(selection, event);
    }
}

proof fn lemma_reaches_sound(args: SystemReplArgs, events: Seq<Event>)
    ensures
        ReplView::start(args).after(events).sound(),
    decreases events.len(),
{
    if events.len() > 0 {
        lemma_reaches_sound(args, events.drop_last());
        law_repl_stays_sound(ReplView::start(args).after(events.drop_last()), events.last());
    }
}

/// A loading updates nothing, builds nothing, asks nothing and activates nothing.
pub proof fn law_repl_only_loads(args: SystemReplArgs, events: Seq<Event>)
    ensures
        ({
            let action = ReplView::start(args).after(events).action();
            &&& !(action is Update)
            &&& !(action is Build)
            &&& !(action is Confirm)
            &&& !(action is Activate)
        }),
{
    lemma_reaches_sound(args, events);
}

/// A store path is never written out to be loaded.
pub proof fn law_store_paths_are_not_loaded(args: SystemReplArgs, events: Seq<Event>)
    ensures
        ({
            let action = ReplView::start(args).after(events).action();
            action is ListArguments ==> !(action->ListArguments_installable is Store)
        }),
{
    lemma_reaches_sound(args, events);
}

/// A failure ends a loading, which says at what stage; only a candidate that does not evaluate is
/// passed over.
pub proof fn law_failure_ends_the_loading(repl: ReplView)
    requires
        repl.sound(),
        stage_of(repl.action()) is Some,
    ensures
        repl.next(Event::Failed).action() == (ActionView::Finish {
            outcome: OutcomeView::Failed { stage: stage_of(repl.action())->0 },
        }),
{
}

/// A loading that ends in success opened a REPL that ended well.
pub proof fn law_repl_success_is_earned(args: SystemReplArgs, events: Seq<Event>)
    requires
        ReplView::start(args).after(events).action() == (ActionView::Finish {
            outcome: OutcomeView::Success,
        }),
    ensures
        ReplView::start(args).ran(events),
    decreases events.len(),
{
    let start = ReplView::start(args);
    lemma_reaches_sound(args, events);
    let before = events.drop_last();
    lemma_reaches_sound(args, before);
    assert(events.take(events.len() - 1) =~= before);
    assert(events[events.len() - 1] == events.last());
    if start.after(before).step is Finished {
        law_repl_success_is_earned(args, before);
        let i = choose|i: int|
            0 <= i < before.len() && #[trigger] before[i] is Done && start.after(
                before.take(i),
            ).action() is OpenRepl;
        assert(before.take(i) =~= events.take(i));
        assert(events[i] is Done);
    }
}

/// A loading begins by having what the user named completed, and by finding something where nothing
/// was named; each ends it if it fails, and so does a store path.
pub proof fn law_loading_begins_with_what_was_named(
    args: SystemReplArgs,
    events: Seq<Event>,
    path: OsText,
)
    ensures
        ({
            let now = ReplView::start(args).after(events);
            let stored = Event::Resolved { installable: Installable::Store { path } };
            let refused = ActionView::Finish {
                outcome: OutcomeView::Refused { error: SystemErrorView::StoreInRepl },
            };
            &&& ReplView::start(args).action() is Resolve
            &&& now.action() is Resolve ==> {
                &&& now.action()->Resolve_installable == args.installable@
                &&& now.next(
                    Event::Resolved { installable: Installable::Unspecified },
                ).action() is FindDefault
                &&& now.next(stored).action() == refused
                &&& now.next(Event::Failed).action() == (ActionView::Finish {
                    outcome: OutcomeView::Failed { stage: Stage::Resolve },
                })
            }
            &&& now.action() is FindDefault ==> {
                &&& now.next(stored).action() == refused
                &&& now.next(Event::Failed).action() == (ActionView::Finish {
                    outcome: OutcomeView::Failed { stage: Stage::FindDefault },
                })
            }
        }),
{
    lemma_reaches_sound(args, events);
    lemma_keeps_request(args, events);
}

proof fn lemma_choice_is_followed(repl: ReplView, choice: SelectionView, replies: Seq<Event>)
    requires
        repl.step == selecting(choice),
        replies.len() > 0 ==> choice.after(replies.drop_last()).action() is Some,
    ensures
        repl.after(replies).step == selecting(choice.after(replies)),
    decreases replies.len(),
{
    if replies.len() > 0 {
        let before = replies.drop_last();
        if before.len() > 0 {
            law_choice_heeds_answers_only(choice.after(before.drop_last()), before.last());
        }
        lemma_choice_is_followed(repl, choice, before);
    }
}

/// Once it is known what to start from, a loading chooses what to load exactly as the choice from
/// that installable, with the host name that the user gave and no extra arguments, does: it asks
/// what the choice asks, and ends as the choice does if it fails or is refused. The arguments of
/// what is chosen are asked for, and with all of them, in order, `nix repl` is run in view of the
/// user; the loading succeeds if that does.
pub proof fn law_loading_follows_the_choice(
    args: SystemReplArgs,
    events: Seq<Event>,
    installable: Installable,
    replies: Seq<Event>,
    written: Vec<String>,
)
    requires
        !(installable is Unspecified),
        !(installable is Store),
        ({
            let asked = ReplView::start(args).after(events).action();
            asked is Resolve || asked is FindDefault
        }),
        replies.len() > 0 ==> SelectionView::start(
            installable@,
            args.hostname.deep_view(),
            Seq::empty(),
        ).after(replies.drop_last()).action() is Some,
    ensures
        ({
            let choice = SelectionView::start(
                installable@,
                args.hostname.deep_view(),
                Seq::empty(),
            ).after(replies);
            let now = ReplView::start(args).after(events).next(
                Event::Resolved { installable },
            ).after(replies);
            match choice.action() {
                Some(asked) => now.action() == asked,
                None => match choice.step {
                    SelectionStepView::Selected { installable: target } => {
                        let running = now.next(Event::Arguments { args: written });
                        let command = running.action()->OpenRepl_command;
                        &&& now.action() == (ActionView::ListArguments { installable: target })
                        &&& running.action() is OpenRepl
                        &&& command.program == encode_utf8("nix"@)
                        &&& command.args.len() == 1 + written@.len()
                        &&& command.args[0] == "repl"@
                        &&& forall|i: int|
                            0 <= i < written@.len() ==> command.args[1 + i] == (
                            #[trigger] written@[i])@
                        &&& command.message is None
                        &&& !command.elevate
                        &&& command.show_output
                        &&& command.required_env
                        &&& running.next(Event::Done).action() == (ActionView::Finish {
                            outcome: OutcomeView::Success,
                        })
                        &&& running.next(Event::Failed).action() == (ActionView::Finish {
                            outcome: OutcomeView::Failed { stage: Stage::OpenRepl },
                        })
                    },
                    SelectionStepView::Failed { stage } => now.action() == (ActionView::Finish {
                        outcome: OutcomeView::Failed { stage },
                    }),
                    SelectionStepView::Refused { error } => now.action() == (ActionView::Finish {
                        outcome: OutcomeView::Refused { error },
                    }),
                    _ => false,
                },
            }
        }),
{
    let before = ReplView::start(args).after(events);
    let choice = SelectionView::start(installable@, args.hostname.deep_view(), Seq::empty());
    lemma_reaches_sound(args, events);
    lemma_keeps_request(args, events);
    lemma_choice_is_followed(before.next(Event::Resolved { installable }), choice, replies);
}

proof fn lemma_keeps_request(args: SystemReplArgs, events: Seq<Event>)
    ensures
        ReplView::start(args).after(events).args == args,
    decreases events.len(),
{
    if events.len() > 0 {
        lemma_keeps_request(args, events.drop_last());
    }
}

/// A loading heeds only what answers what it asked; anything else leaves it exactly as it is, and
/// once it is over, so does everything.
pub proof fn law_loading_heeds_answers_only(
    args: SystemReplArgs,
    events: Seq<Event>,
    event: Event,
)
    ensures
        ({
            let now = ReplView::start(args).after(events);
            ||| now.next(event) == now
            ||| match now.action() {
                ActionView::Resolve { .. } => event is Resolved || event is Failed,
                ActionView::FindDefault => {
                    ||| event is Resolved && !(event->installable is Unspecified)
                    ||| event is Failed
                },
                ActionView::QuerySystem { .. } => event is Captured || event is Failed,
                ActionView::QueryHostname { .. } => event is Hostname || event is Failed,
                ActionView::ListArguments { .. } => event is Arguments,
                ActionView::Evaluate { .. }
                | ActionView::OpenRepl { .. } => event is Done || event is Failed,
                _ => false,
            }
        }),
{
    lemma_reaches_sound(args, events);
    law_repl_goes_on_by_replies(ReplView::start(args).after(events), event);
}

} // verus!

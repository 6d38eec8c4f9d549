//! What holds of every choice.
use crate::attribute::flake_candidates;
use crate::error::{SystemError, SystemErrorView};
use crate::installable::{Installable, InstallableView};
use crate::search::{answers, declines, flake, resolves, CandidateSearchView};
use crate::select::{named_system, SelectionStepView, SelectionView};
use crate::session::{is_reply, ActionView, Event, Stage};
use crate::text::{
    is_white_space, joined, law_trimming_is_idempotent, law_trimming_takes_white_space_only, trimmed,
};
use vstd::prelude::*;
use vstd::utf8::encode_utf8;

verus! {

impl SelectionView {
    /// The choice after `events`, in order.
    pub open spec fn after(self, events: Seq<Event>) -> Self
        decreases events.len(),
    {
        if events.len() == 0 {
            self
        } else {
            self.after(events.drop_last()).next(events.last())
        }
    }

    /// How many replies the choice can still take.
    pub open spec fn rank(self) -> nat {
        match self.step {
            SelectionStepView::AskingSystem { .. } => 10,
            SelectionStepView::AskingHost { .. } => 9,
            SelectionStepView::Listing { search, .. } => 2 * search.remaining.len() + 2,
            SelectionStepView::Evaluating { search, .. } => 2 * search.remaining.len() + 1,
            _ => 0,
        }
    }
}

/// A reply brings a choice closer to its end; anything else leaves it as it is.
pub proof fn law_selection_goes_on_by_replies(selection: SelectionView, event: Event)
    ensures
        match selection.action() {
            Some(action) => if is_reply(action, event) {
                selection.next(event).rank() < selection.rank()
            } else {
                selection.next(event) == selection
            },
            None => selection.next(event) == selection,
        },
{
}

/// The replies that turn down the first `n` candidates, whose arguments are `args`.
pub open spec fn rejections(args: Seq<Vec<String>>, n: nat) -> Seq<Event>
    decreases n,
{
    if n == 0 {
        Seq::empty()
    } else {
        rejections(args, (n - 1) as nat).push(Event::Arguments { args: args[n - 1] }).push(
            Event::Failed,
        )
    }
}

/// The candidates that have these arguments, as they are shown to the user.
pub open spec fn shown(args: Seq<Vec<String>>) -> Seq<Seq<char>> {
    args.map_values(|a: Vec<String>| joined(a.deep_view(), " "@))
}

/// The choice among `candidates`, before the first is tried.
pub open spec fn among(
    reference: Seq<char>,
    candidates: Seq<Seq<Seq<char>>>,
    extra_args: Seq<Seq<char>>,
) -> SelectionView {
    SelectionView {
        extra_args,
        step: SelectionStepView::trying(CandidateSearchView::start(reference, candidates)),
    }
}

proof fn lemma_rejections(
    reference: Seq<char>,
    candidates: Seq<Seq<Seq<char>>>,
    extra_args: Seq<Seq<char>>,
    args: Seq<Vec<String>>,
    n: nat,
)
    requires
        n <= candidates.len(),
        n <= args.len(),
    ensures
        among(reference, candidates, extra_args).after(rejections(args, n)) == (SelectionView {
            extra_args,
            step: SelectionStepView::trying(
                CandidateSearchView {
                    reference,
                    remaining: candidates.skip(n as int),
                    tried: shown(args.take(n as int)),
                },
            ),
        }),
    decreases n,
{
    let start = among(reference, candidates, extra_args);
    if n == 0 {
        assert(candidates.skip(0) =~= candidates);
        assert(shown(args.take(0)) =~= Seq::empty());
    } else {
        let m = (n - 1) as nat;
        lemma_rejections(reference, candidates, extra_args, args, m);
        let listed = rejections(args, m).push(Event::Arguments { args: args[m as int] });
        assert(listed.drop_last() =~= rejections(args, m));
        assert(rejections(args, n).drop_last() =~= listed);
        assert(start.after(listed) == start.after(rejections(args, m)).next(listed.last()));
        assert(candidates.skip(m as int).drop_first() =~= candidates.skip(n as int));
        assert(shown(args.take(n as int)) =~= shown(args.take(m as int)).push(
            joined(args[m as int].deep_view(), " "@),
        ));
    }
}

/// The first candidate that evaluates is chosen: if the first `k` are turned down and the next is
/// not, that one is chosen.
pub proof fn law_first_that_evaluates_is_chosen(
    reference: Seq<char>,
    candidates: Seq<Seq<Seq<char>>>,
    extra_args: Seq<Seq<char>>,
    args: Seq<Vec<String>>,
    k: nat,
)
    requires
        k < candidates.len(),
        k < args.len(),
    ensures
        among(reference, candidates, extra_args).after(
            rejections(args, k).push(Event::Arguments { args: args[k as int] }).push(Event::Done),
        ).step == (SelectionStepView::Selected {
            installable: flake(reference, candidates[k as int]),
        }),
{
    let start = among(reference, candidates, extra_args);
    lemma_rejections(reference, candidates, extra_args, args, k);
    let listed = rejections(args, k).push(Event::Arguments { args: args[k as int] });
    assert(listed.drop_last() =~= rejections(args, k));
    assert(listed.push(Event::Done).drop_last() =~= listed);
    assert(start.after(listed) == start.after(rejections(args, k)).next(listed.last()));
}

/// Trying the candidates step by step chooses what [`resolve_flake_candidate`] resolves to, for the
/// same answers.
///
/// [`resolve_flake_candidate`]: crate::search::resolve_flake_candidate
pub proof fn law_steps_choose_what_is_resolved<A, F>(
    reference: Seq<char>,
    candidates: Seq<Seq<Seq<char>>>,
    extra_args: Seq<Seq<char>>,
    to_args: A,
    probe: F,
    installable: Installable,
    args: Seq<Vec<String>>,
) where
    A: Fn(&Installable) -> Vec<String>,
    F: FnMut(&Installable) -> Result<bool, SystemError>,

    requires
        resolves(reference, candidates, to_args, probe, Ok(installable)),
        args.len() == candidates.len(),
    ensures
        exists|k: nat|
            {
                &&& k < candidates.len()
                &&& declines(probe, reference, candidates, k as int)
                &&& answers(probe, flake(reference, candidates[k as int]), Ok(true))
                &&& among(reference, candidates, extra_args).after(
                    (#[trigger] rejections(args, k)).push(
                        Event::Arguments { args: args[k as int] },
                    ).push(Event::Done),
                ).step == (SelectionStepView::Selected { installable: installable@ })
            },
{
    let k = choose|k: int|
        {
            &&& 0 <= k < candidates.len()
            &&& installable@ == flake(reference, #[trigger] candidates[k])
            &&& answers(probe, installable@, Ok(true))
            &&& declines(probe, reference, candidates, k)
        };
    law_first_that_evaluates_is_chosen(reference, candidates, extra_args, args, k as nat);
}

/// If all candidates are turned down, the choice is refused, and the refusal shows each of them,
/// in order.
pub proof fn law_refusal_shows_every_candidate(
    reference: Seq<char>,
    candidates: Seq<Seq<Seq<char>>>,
    extra_args: Seq<Seq<char>>,
    args: Seq<Vec<String>>,
)
    requires
        args.len() == candidates.len(),
    ensures
        among(reference, candidates, extra_args).after(rejections(args, args.len())).step == (
        SelectionStepView::Refused {
            error: SystemErrorView::NoConfiguration { tried: shown(args) },
        }),
{
    lemma_rejections(reference, candidates, extra_args, args, args.len());
    assert(args.take(args.len() as int) =~= args);
}

/// Once the current system and the host name are known, the choice is among the candidates for
/// them.
pub proof fn law_choice_is_among_the_candidates(
    reference: Seq<char>,
    attribute: Seq<Seq<char>>,
    hostname: Option<Seq<char>>,
    extra_args: Seq<Seq<char>>,
    output: Option<String>,
    host: String,
)
    requires
        named_system(output.deep_view()) is Some,
        flake_candidates(attribute, named_system(output.deep_view())->0, host@) is Some,
    ensures
        SelectionView::start(flake(reference, attribute), hostname, extra_args).after(
            seq![Event::Captured { output }, Event::Hostname { hostname: host }],
        ) == among(
            reference,
            flake_candidates(attribute, named_system(output.deep_view())->0, host@)->0,
            extra_args,
        ),
{
    let start = SelectionView::start(flake(reference, attribute), hostname, extra_args);
    let first = seq![Event::Captured { output }];
    let both = seq![Event::Captured { output }, Event::Hostname { hostname: host }];
    assert(both.drop_last() =~= first);
    assert(first.drop_last() =~= Seq::empty());
    assert(start.after(Seq::empty()) == start);
    assert(start.after(first) == start.next(first.last()));
}

/// That `path` is a candidate for `attribute` on some system and host.
pub open spec fn is_candidate(attribute: Seq<Seq<char>>, path: Seq<Seq<char>>) -> bool {
    exists|current_system: Seq<char>, hostname: Seq<char>|
        {
            let candidates = #[trigger] flake_candidates(attribute, current_system, hostname);
            candidates is Some && candidates->0.contains(path)
        }
}

/// That `installable` is one of the candidates for `attribute` of the flake `reference`.
pub open spec fn is_candidate_of(
    reference: Seq<char>,
    attribute: Seq<Seq<char>>,
    installable: InstallableView,
) -> bool {
    &&& installable is Flake
    &&& installable->Flake_reference == reference
    &&& is_candidate(attribute, installable->Flake_attribute)
}

/// That every candidate a search still has is one for `attribute` of the flake `reference`.
spec fn searches(
    search: CandidateSearchView,
    reference: Seq<char>,
    attribute: Seq<Seq<char>>,
) -> bool {
    &&& search.reference == reference
    &&& forall|j: int|
        0 <= j < search.remaining.len() ==> is_candidate(attribute, #[trigger] search.remaining[j])
}

spec fn keeps_to(step: SelectionStepView, reference: Seq<char>, attribute: Seq<Seq<char>>) -> bool {
    match step {
        SelectionStepView::AskingSystem { reference: r, attribute: a, .. } => r == reference && a
            == attribute,
        SelectionStepView::AskingHost { reference: r, attribute: a, .. } => r == reference && a
            == attribute,
        SelectionStepView::Listing { search, candidate } => {
            &&& searches(search, reference, attribute)
            &&& is_candidate_of(reference, attribute, candidate)
        },
        SelectionStepView::Evaluating { search, candidate, .. } => {
            &&& searches(search, reference, attribute)
            &&& is_candidate_of(reference, attribute, candidate)
        },
        SelectionStepView::Selected { installable } => is_candidate_of(
            reference,
            attribute,
            installable,
        ),
        _ => true,
    }
}

proof fn lemma_keeps_to(
    step: SelectionStepView,
    reference: Seq<char>,
    attribute: Seq<Seq<char>>,
    event: Event,
)
    requires
        keeps_to(step, reference, attribute),
    ensures
        keeps_to(step.next(event), reference, attribute),
{
    match (step, event) {
        (SelectionStepView::AskingHost { current_system, .. }, Event::Hostname { hostname }) => {
            let candidates = flake_candidates(attribute, current_system, hostname@);
            if candidates is Some {
                assert forall|j: int| 0 <= j < candidates->0.len() implies is_candidate(
                    attribute,
                    #[trigger] candidates->0[j],
                ) by {
                    assert(candidates->0.contains(candidates->0[j]));
                }
            }
        },
        _ => {},
    }
}

/// Whatever the replies, what is chosen from a flake is an attribute of that flake, and one of the
/// candidates for the attribute path that the user gave.
pub proof fn law_choice_is_a_candidate(
    reference: Seq<char>,
    attribute: Seq<Seq<char>>,
    hostname: Option<Seq<char>>,
    extra_args: Seq<Seq<char>>,
    events: Seq<Event>,
)
    ensures
        ({
            let end = SelectionView::start(flake(reference, attribute), hostname, extra_args).after(
                events,
            );
            end.step is Selected ==> is_candidate_of(
                reference,
                attribute,
                end.step->Selected_installable,
            )
        }),
{
    lemma_stays(reference, attribute, hostname, extra_args, events);
}

proof fn lemma_stays(
    reference: Seq<char>,
    attribute: Seq<Seq<char>>,
    hostname: Option<Seq<char>>,
    extra_args: Seq<Seq<char>>,
    events: Seq<Event>,
)
    ensures
        keeps_to(
            SelectionView::start(flake(reference, attribute), hostname, extra_args).after(
                events,
            ).step,
            reference,
            attribute,
        ),
    decreases events.len(),
{
    if events.len() > 0 {
        lemma_stays(reference, attribute, hostname, extra_args, events.drop_last());
        lemma_keeps_to(
            SelectionView::start(flake(reference, attribute), hostname, extra_args).after(
                events.drop_last(),
            ).step,
            reference,
            attribute,
            events.last(),
        );
    }
}

/// The current system is what `nix config show system` printed, without the white space around it;
/// it is unknown if and only if nothing but white space was printed.
pub proof fn law_system_is_what_was_printed(output: Option<Seq<char>>)
    ensures
        match output {
            Some(text) => {
                &&& named_system(output) is None <==> forall|k: int|
                    0 <= k < text.len() ==> is_white_space(#[trigger] text[k])
                &&& named_system(output) is Some ==> {
                    let name = named_system(output)->0;
                    &&& name.len() > 0
                    &&& !is_white_space(name.first())
                    &&& !is_white_space(name.last())
                    &&& exists|i: int, j: int|
                        {
                            &&& 0 <= i <= j <= text.len()
                            &&& name == #[trigger] text.subrange(i, j)
                            &&& forall|k: int|
                                0 <= k < i || j <= k < text.len() ==> is_white_space(
                                    #[trigger] text[k],
                                )
                        }
                }
            },
            None => named_system(output) is None,
        },
{
    if let Some(text) = output {
        law_trimming_takes_white_space_only(text);
        law_trimming_is_idempotent(text);
    }
}

/// That `path` is `attribute` behind `systemConfigs`, which is not repeated.
pub open spec fn is_behind_root(path: Seq<Seq<char>>, attribute: Seq<Seq<char>>) -> bool {
    let added = path.len() - attribute.len();
    &&& path.len() > 0
    &&& path[0] == "systemConfigs"@
    &&& added == if attribute.len() > 0 && attribute[0] == "systemConfigs"@ {
        0int
    } else {
        1int
    }
    &&& forall|i: int| 0 <= i < attribute.len() ==> path[added + i] == #[trigger] attribute[i]
}

/// A store path is chosen as it is, and so is what a file or an expression holds behind
/// `systemConfigs`; these are refused if and only if their attribute path is missing, or too long
/// behind it, which the refusal then shows.
pub proof fn law_what_is_no_flake_is_settled_at_once(
    installable: InstallableView,
    hostname: Option<Seq<char>>,
    extra_args: Seq<Seq<char>>,
)
    requires
        !(installable is Flake),
        !(installable is Unspecified),
    ensures
        ({
            let step = SelectionView::start(installable, hostname, extra_args).step;
            let attribute = match installable {
                InstallableView::File { attribute, .. } => attribute,
                InstallableView::Expression { attribute, .. } => attribute,
                _ => seq!["systemConfigs"@],
            };
            let led = attribute.len() > 0 && attribute[0] == "systemConfigs"@;
            if attribute.len() == 0 {
                step == (SelectionStepView::Refused { error: SystemErrorView::MissingAttribute })
            } else if attribute.len() > 3 || (attribute.len() == 3 && !led) {
                &&& step is Refused
                &&& step->Refused_error is AttributeTooSpecific
                &&& is_behind_root(
                    step->Refused_error->AttributeTooSpecific_attribute,
                    attribute,
                )
            } else {
                &&& step is Selected
                &&& match (installable, step->Selected_installable) {
                    (
                        InstallableView::File { path, .. },
                        InstallableView::File { path: chosen, attribute: within },
                    ) => chosen == path && is_behind_root(within, attribute),
                    (
                        InstallableView::Expression { expression, .. },
                        InstallableView::Expression { expression: chosen, attribute: within },
                    ) => chosen == expression && is_behind_root(within, attribute),
                    (
                        InstallableView::Store { path },
                        InstallableView::Store { path: chosen },
                    ) => chosen == path,
                    _ => false,
                }
            }
        }),
{
}

/// The choice from a flake begins by asking Nix for the current system.
pub proof fn law_choice_from_a_flake_asks_for_the_system(
    reference: Seq<char>,
    attribute: Seq<Seq<char>>,
    hostname: Option<Seq<char>>,
    extra_args: Seq<Seq<char>>,
)
    ensures
        ({
            let action = SelectionView::start(
                InstallableView::Flake { reference, attribute },
                hostname,
                extra_args,
            ).action();
            &&& action is Some
            &&& action->0 is QuerySystem
            &&& action->0->QuerySystem_command.program == encode_utf8("nix"@)
            &&& action->0->QuerySystem_command.args.len() == 3
            &&& action->0->QuerySystem_command.args[0] == "config"@
            &&& action->0->QuerySystem_command.args[1] == "show"@
            &&& action->0->QuerySystem_command.args[2] == "system"@
            &&& action->0->QuerySystem_command.message is None
            &&& !action->0->QuerySystem_command.elevate
            &&& !action->0->QuerySystem_command.show_output
            &&& action->0->QuerySystem_command.required_env
        }),
{
}

/// Whatever the events, the host name is asked for with exactly the one that the user gave, or
/// with none if none was given.
pub proof fn law_hostname_is_the_one_given(
    reference: Seq<char>,
    attribute: Seq<Seq<char>>,
    hostname: Option<Seq<char>>,
    extra_args: Seq<Seq<char>>,
    events: Seq<Event>,
)
    ensures
        ({
            let action = SelectionView::start(
                InstallableView::Flake { reference, attribute },
                hostname,
                extra_args,
            ).after(events).action();
            action is Some && action->0 is QueryHostname ==> action->0->hostname == hostname
        }),
{
    lemma_hostname_stays(reference, attribute, hostname, extra_args, events);
}

proof fn lemma_hostname_stays(
    reference: Seq<char>,
    attribute: Seq<Seq<char>>,
    hostname: Option<Seq<char>>,
    extra_args: Seq<Seq<char>>,
    events: Seq<Event>,
)
    ensures
        ({
            let step = SelectionView::start(
                InstallableView::Flake { reference, attribute },
                hostname,
                extra_args,
            ).after(events).step;
            &&& step is AskingSystem ==> step->AskingSystem_hostname == hostname
            &&& step is AskingHost ==> step->AskingHost_hostname == hostname
        }),
    decreases events.len(),
{
    if events.len() > 0 {
        lemma_hostname_stays(reference, attribute, hostname, extra_args, events.drop_last());
    }
}

/// Asked for the system, a choice goes on to the host name if anything but white space was
/// printed, and is refused otherwise.
pub proof fn law_choice_needs_a_system(selection: SelectionView, output: Option<String>)
    requires
        selection.action() is Some,
        selection.action()->0 is QuerySystem,
    ensures
        ({
            let next = selection.next(Event::Captured { output });
            if output is Some && exists|k: int|
                0 <= k < output->0@.len() && !is_white_space(#[trigger] output->0@[k]) {
                next.action() is Some && next.action()->0 is QueryHostname
            } else {
                next.step == (SelectionStepView::Refused { error: SystemErrorView::UnknownSystem })
            }
        }),
        selection.next(Event::Failed).step == (SelectionStepView::Failed {
            stage: Stage::QuerySystem,
        }),
{
    law_system_is_what_was_printed(output.deep_view());
}

/// A host name that cannot be determined ends the choice.
pub proof fn law_choice_needs_a_host(selection: SelectionView)
    requires
        selection.action() is Some,
        selection.action()->0 is QueryHostname,
    ensures
        selection.next(Event::Failed).step == (SelectionStepView::Failed {
            stage: Stage::QueryHostname,
        }),
{
}

/// A choice asks for the system, for the host, for arguments and for evaluations, and for nothing
/// else; it heeds only what answers that, and nothing once it is over.
pub proof fn law_choice_heeds_answers_only(selection: SelectionView, event: Event)
    ensures
        match selection.action() {
            Some(ActionView::QuerySystem { .. }) => {
                ||| event is Captured
                ||| event is Failed
                ||| selection.next(event) == selection
            },
            Some(ActionView::QueryHostname { .. }) => {
                ||| event is Hostname
                ||| event is Failed
                ||| selection.next(event) == selection
            },
            Some(ActionView::ListArguments { .. }) => {
                event is Arguments || selection.next(event) == selection
            },
            Some(ActionView::Evaluate { .. }) => {
                ||| event is Done
                ||| event is Failed
                ||| selection.next(event) == selection
            },
            Some(_) => false,
            None => {
                &&& selection.next(event) == selection
                &&& selection.step is Selected || selection.step is Failed
                    || selection.step is Refused
            },
        },
{
}

/// What is asked, and what is chosen, once the system printed is `text` without the white space
/// around it and the host is `host`: an attribute path without candidates is refused; otherwise,
/// where the first `k` candidates were turned down, the arguments of the next are asked for, then
/// it is evaluated with every extra argument and all of its own, and then it is chosen if it
/// evaluates. If not, the one behind it is next, or, behind the last, the refusal that shows each
/// candidate by its arguments.
pub proof fn law_candidates_are_tried_in_order(
    reference: Seq<char>,
    attribute: Seq<Seq<char>>,
    hostname: Option<Seq<char>>,
    extra_args: Seq<Seq<char>>,
    text: String,
    host: String,
    args: Seq<Vec<String>>,
    k: nat,
)
    requires
        trimmed(text@).len() > 0,
        k < args.len(),
    ensures
        ({
            let asked = SelectionView::start(
                InstallableView::Flake { reference, attribute },
                hostname,
                extra_args,
            ).after(
                seq![
                    Event::Captured { output: Some(text) },
                    Event::Hostname { hostname: host },
                ],
            );
            let candidates = flake_candidates(attribute, trimmed(text@), host@);
            let listing = asked.after(rejections(args, k));
            let evaluating = listing.next(Event::Arguments { args: args[k as int] });
            let own = args[k as int].deep_view();
            &&& candidates is None ==> asked.step == (SelectionStepView::Refused {
                error: SystemErrorView::FlakeAttributeTooSpecific {
                    attribute,
                    current_system: trimmed(text@),
                    hostname: host@,
                },
            })
            &&& candidates is Some && k < candidates->0.len() ==> {
                let candidate = InstallableView::Flake {
                    reference,
                    attribute: candidates->0[k as int],
                };
                let command = evaluating.action()->0->Evaluate_command;
                let declined = evaluating.next(Event::Failed);
                &&& listing.action() == Some(ActionView::ListArguments { installable: candidate })
                &&& evaluating.action() is Some
                &&& evaluating.action()->0 is Evaluate
                &&& command.program == encode_utf8("nix"@)
                &&& command.args.len() == 1 + extra_args.len() + own.len()
                &&& command.args[0] == "eval"@
                &&& forall|i: int|
                    0 <= i < extra_args.len() ==> command.args[1 + i] == #[trigger] extra_args[i]
                &&& forall|i: int|
                    0 <= i < own.len() ==> command.args[1 + extra_args.len() + i]
                        == #[trigger] own[i]
                &&& command.message is None
                &&& !command.elevate
                &&& !command.show_output
                &&& command.required_env
                &&& evaluating.next(Event::Done).step == (SelectionStepView::Selected {
                    installable: candidate,
                })
                &&& k + 1 < candidates->0.len() ==> declined.action() == Some(
                    ActionView::ListArguments {
                        installable: InstallableView::Flake {
                            reference,
                            attribute: candidates->0[(k + 1) as int],
                        },
                    },
                )
                &&& k + 1 == candidates->0.len() ==> {
                    &&& declined.step is Refused
                    &&& declined.step->Refused_error is NoConfiguration
                    &&& declined.step->Refused_error->tried.len() == k + 1
                    &&& forall|j: int|
                        0 <= j <= k ==> #[trigger] declined.step->Refused_error->tried[j] == joined(
                            args[j].deep_view(),
                            " "@,
                        )
                }
            }
        }),
{
    let start = SelectionView::start(
        InstallableView::Flake { reference, attribute },
        hostname,
        extra_args,
    );
    let first = seq![Event::Captured { output: Some(text) }];
    let both = seq![
        Event::Captured { output: Some(text) },
        Event::Hostname { hostname: host },
    ];
    assert(both.drop_last() =~= first);
    assert(first.drop_last() =~= Seq::empty());
    assert(start.after(Seq::empty()) == start);
    assert(start.after(first) == start.next(first.last()));
    assert(start.after(both) == start.after(first).next(both.last()));
    let candidates = flake_candidates(attribute, trimmed(text@), host@);
    if candidates is Some && k < candidates->0.len() {
        assert(start.after(both) == among(reference, candidates->0, extra_args));
        lemma_rejections(reference, candidates->0, extra_args, args, k);
        assert(candidates->0.skip(k as int).drop_first() =~= candidates->0.skip((k + 1) as int));
        assert(shown(args.take(k as int)).push(joined(args[k as int].deep_view(), " "@)) =~= shown(
            args.take((k + 1) as int),
        ));
    }
}

} // verus!

//! Trying the candidates of a flake one after the other.
use crate::error::{SystemError, SystemErrorView};
use crate::installable::{Installable, InstallableView};
use crate::text::{join, joined};
use vstd::prelude::*;

verus! {

/// The candidates of a flake that were not handed out yet, and what was tried.
#[derive(Debug)]
pub struct CandidateSearch {
    reference: String,
    remaining: Vec<Vec<String>>,
    tried: Vec<String>,
}

/// The content of a [`CandidateSearch`].
#[verifier::ext_equal]
pub ghost struct CandidateSearchView {
    pub reference: Seq<char>,
    /// The attribute paths not handed out yet, in order.
    pub remaining: Seq<Seq<Seq<char>>>,
    /// What was tried so far, as it is shown to the user.
    pub tried: Seq<Seq<char>>,
}

impl View for CandidateSearch {
    type V = CandidateSearchView;

    closed spec fn view(&self) -> CandidateSearchView {
        CandidateSearchView {
            reference: self.reference@,
            remaining: self.remaining.deep_view(),
            tried: self.tried.deep_view(),
        }
    }
}

impl CandidateSearchView {
    /// The search before the first candidate.
    pub open spec fn start(reference: Seq<char>, candidates: Seq<Seq<Seq<char>>>) -> Self {
        CandidateSearchView { reference, remaining: candidates, tried: Seq::empty() }
    }

    /// The next candidate.
    pub open spec fn next(self) -> InstallableView
        recommends
            self.remaining.len() > 0,
    {
        InstallableView::Flake { reference: self.reference, attribute: self.remaining[0] }
    }

    /// The search once its next candidate was handed out.
    pub open spec fn advanced(self) -> Self {
        CandidateSearchView { remaining: self.remaining.drop_first(), ..self }
    }

    /// The search once a candidate was tried that is written with these arguments.
    pub open spec fn recorded(self, args: Seq<Seq<char>>) -> Self {
        CandidateSearchView { tried: self.tried.push(joined(args, " "@)), ..self }
    }
}

impl CandidateSearch {
    /// A search over `candidates`.
    pub fn new(reference: String, candidates: Vec<Vec<String>>) -> (r: Self)
        ensures
            r@ == CandidateSearchView::start(reference@, candidates.deep_view()),
    {
        let r = CandidateSearch { reference, remaining: candidates, tried: Vec::new() };
        assert(r@ =~= CandidateSearchView::start(reference@, candidates.deep_view()));
        r
    }

    /// Hands out the next candidate.
    pub fn next_candidate(&mut self) -> (r: Option<Installable>)
        ensures
            match r {
                Some(candidate) => {
                    &&& old(self)@.remaining.len() > 0
                    &&& candidate@ == old(self)@.next()
                    &&& final(self)@ == old(self)@.advanced()
                },
                None => old(self)@.remaining.len() == 0 && *final(self) == *old(self),
            },
    {
        if self.remaining.len() > 0 {
            let candidate = Installable::Flake {
                reference: self.reference.clone(),
                attribute: self.remaining.remove(0),
            };
            assert(self@ =~= old(self)@.advanced());
            Some(candidate)
        } else {
            None
        }
    }

    /// Notes that a candidate written with `args` is tried.
    pub fn record(&mut self, args: &Vec<String>)
        ensures
            final(self)@ == old(self)@.recorded(args.deep_view()),
    {
        self.tried.push(join(args, " "));
        assert(self@ =~= old(self)@.recorded(args.deep_view()));
    }

    /// That none of the candidates tried will do.
    pub fn into_error(self) -> (r: SystemError)
        ensures
            r@ == (SystemErrorView::NoConfiguration { tried: self@.tried }),
    {
        SystemError::NoConfiguration { tried: self.tried }
    }
}

/// The attribute `attribute` of the flake `reference`.
pub open spec fn flake(reference: Seq<char>, attribute: Seq<Seq<char>>) -> InstallableView {
    InstallableView::Flake { reference, attribute }
}

/// That `probe` answers `outcome` for an installable whose content is `installable`.
pub open spec fn answers<F: FnMut(&Installable) -> Result<bool, SystemError>>(
    probe: F,
    installable: InstallableView,
    outcome: Result<bool, SystemError>,
) -> bool {
    exists|i: Installable| i@ == installable && #[trigger] call_ensures(probe, (&i,), outcome)
}

/// That `probe` answers `false` for each of the first `n` candidates.
pub open spec fn declines<F: FnMut(&Installable) -> Result<bool, SystemError>>(
    probe: F,
    reference: Seq<char>,
    candidates: Seq<Seq<Seq<char>>>,
    n: int,
) -> bool {
    forall|j: int|
        0 <= j < n ==> answers(probe, flake(reference, #[trigger] candidates[j]), Ok(false))
}

/// That `text` shows the arguments that `to_args` gives for an installable whose content is
/// `installable`.
pub open spec fn shows<A: Fn(&Installable) -> Vec<String>>(
    to_args: A,
    installable: InstallableView,
    text: Seq<char>,
) -> bool {
    exists|i: Installable, args: Vec<String>|
        i@ == installable && #[trigger] call_ensures(to_args, (&i,), args) && text == joined(
            args.deep_view(),
            " "@,
        )
}

/// That the answers of `probe` lead to `r`: to the first candidate for which it answers `true`, to
/// the first error it gives, or, if it answers `false` for all of them, to the error that lists
/// them in order.
pub open spec fn resolves<A, F>(
    reference: Seq<char>,
    candidates: Seq<Seq<Seq<char>>>,
    to_args: A,
    probe: F,
    r: Result<Installable, SystemError>,
) -> bool where
    A: Fn(&Installable) -> Vec<String>,
    F: FnMut(&Installable) -> Result<bool, SystemError>,
 {
    match r {
        Ok(installable) => exists|k: int|
            {
                &&& 0 <= k < candidates.len()
                &&& installable@ == flake(reference, #[trigger] candidates[k])
                &&& answers(probe, installable@, Ok(true))
                &&& declines(probe, reference, candidates, k)
            },
        Err(error) => {
            ||| exists|k: int|
                {
                    &&& 0 <= k < candidates.len()
                    &&& answers(probe, flake(reference, #[trigger] candidates[k]), Err(error))
                    &&& declines(probe, reference, candidates, k)
                }
            ||| {
                &&& declines(probe, reference, candidates, candidates.len() as int)
                &&& error@ is NoConfiguration
                &&& error@->tried.len() == candidates.len()
                &&& forall|j: int|
                    0 <= j < candidates.len() ==> shows(
                        to_args,
                        flake(reference, candidates[j]),
                        #[trigger] error@->tried[j],
                    )
            }
        },
    }
}

/// The first candidate of the flake `reference` for which `probe` answers `true`. The arguments
/// that `to_args` gives for a candidate show it to the user if none will do.
pub fn resolve_flake_candidate<A, F>(
    reference: String,
    candidates: Vec<Vec<String>>,
    to_args: A,
    probe: F,
) -> (r: Result<Installable, SystemError>) where
    A: Fn(&Installable) -> Vec<String>,
    F: FnMut(&Installable) -> Result<bool, SystemError>,

    requires
        forall|i: Installable, k: int|
            0 <= k < candidates@.len() && i@ == flake(
                reference@,
                #[trigger] candidates.deep_view()[k],
            ) ==> #[trigger] call_requires(to_args, (&i,)),
        forall|i: Installable, k: int|
            0 <= k < candidates@.len() && i@ == flake(
                reference@,
                #[trigger] candidates.deep_view()[k],
            ) ==> #[trigger] call_requires(probe, (&i,)),
    ensures
        resolves(reference@, candidates.deep_view(), to_args, probe, r),
{
    let ghost name = reference@;
    let ghost all = candidates.deep_view();
    let ghost mut k: int = 0;
    let mut ask = probe;
    let mut search = CandidateSearch::new(reference, candidates);
    assert(all.skip(0) =~= all);
    loop
        invariant
            ask == probe,
            name == reference@,
            all == candidates.deep_view(),
            0 <= k <= all.len(),
            search@.reference == name,
            search@.remaining == all.skip(k),
            search@.tried.len() == k,
            forall|j: int|
                0 <= j < k ==> shows(to_args, flake(name, all[j]), #[trigger] search@.tried[j]),
            declines(probe, name, all, k),
            forall|i: Installable, k: int|
                0 <= k < all.len() && i@ == flake(name, #[trigger] all[k])
                    ==> #[trigger] call_requires(to_args, (&i,)),
            forall|i: Installable, k: int|
                0 <= k < all.len() && i@ == flake(name, #[trigger] all[k])
                    ==> #[trigger] call_requires(probe, (&i,)),
        decreases all.len() - k,
    {
        match search.next_candidate() {
            Some(candidate) => {
                assert(all.skip(k).drop_first() =~= all.skip(k + 1));
                assert(candidate@ == flake(name, all[k]));
                let args = to_args(&candidate);
                search.record(&args);
                match ask(&candidate) {
                    Ok(true) => {
                        return Ok(candidate);
                    },
                    Ok(false) => {
                        proof {
                            k = k + 1;
                        }
                    },
                    Err(error) => {
                        return Err(error);
                    },
                }
            },
            None => {
                return Err(search.into_error());
            },
        }
    }
}

/// A search hands out the candidates one by one in their order, each as an attribute of the flake,
/// and loses none.
pub proof fn law_search_hands_out_in_order(search: CandidateSearchView)
    requires
        search.remaining.len() > 0,
    ensures
        search.next() is Flake,
        search.next()->Flake_reference == search.reference,
        search.next()->Flake_attribute == search.remaining[0],
        search.advanced().reference == search.reference,
        search.advanced().tried == search.tried,
        search.advanced().remaining.len() == search.remaining.len() - 1,
        forall|j: int|
            0 < j < search.remaining.len() ==> search.advanced().remaining[j - 1]
                == #[trigger] search.remaining[j],
{
}

/// A search begins with all of its candidates and with nothing tried, and what is tried is noted
/// behind what was tried before, its arguments with a space between neighbours.
pub proof fn law_search_notes_what_is_tried(
    reference: Seq<char>,
    candidates: Seq<Seq<Seq<char>>>,
    search: CandidateSearchView,
    args: Seq<Seq<char>>,
)
    ensures
        CandidateSearchView::start(reference, candidates).reference == reference,
        CandidateSearchView::start(reference, candidates).remaining == candidates,
        CandidateSearchView::start(reference, candidates).tried.len() == 0,
        search.recorded(args).reference == search.reference,
        search.recorded(args).remaining == search.remaining,
        search.recorded(args).tried.len() == search.tried.len() + 1,
        search.recorded(args).tried.last() == joined(args, " "@),
        forall|j: int|
            0 <= j < search.tried.len() ==> search.recorded(args).tried[j]
                == #[trigger] search.tried[j],
{
}

/// What is resolved is the first candidate that the probe accepts: it accepted candidate `k` and
/// declined each before it. An error either comes from the probe for candidate `k`, once it
/// declined each before, or says that it declined all of them and shows each, in order.
pub proof fn law_first_accepted_candidate_is_resolved<A, F>(
    reference: Seq<char>,
    candidates: Seq<Seq<Seq<char>>>,
    to_args: A,
    probe: F,
    r: Result<Installable, SystemError>,
) -> (k: int) where
    A: Fn(&Installable) -> Vec<String>,
    F: FnMut(&Installable) -> Result<bool, SystemError>,

    requires
        resolves(reference, candidates, to_args, probe, r),
    ensures
        0 <= k <= candidates.len(),
        forall|attribute: Seq<Seq<char>>| #[trigger]
            candidates.take(k).contains(attribute) ==> exists|i: Installable|
                i@ == (InstallableView::Flake { reference, attribute })
                    && #[trigger] call_ensures(probe, (&i,), Ok(false)),
        r is Ok ==> k < candidates.len() && r->Ok_0@ == (InstallableView::Flake {
            reference,
            attribute: candidates[k],
        }) && exists|i: Installable|
            i@ == r->Ok_0@ && #[trigger] call_ensures(probe, (&i,), Ok(true)),
        r is Err && k < candidates.len() ==> exists|i: Installable|
            i@ == (InstallableView::Flake { reference, attribute: candidates[k] })
                && #[trigger] call_ensures(probe, (&i,), Err(r->Err_0)),
        r is Err && k == candidates.len() ==> {
            &&& r->Err_0 is NoConfiguration
            &&& r->Err_0->tried@.len() == candidates.len()
            &&& forall|j: int|
                0 <= j < candidates.len() && r->Err_0->tried@.contains(
                    #[trigger] r->Err_0->tried@[j],
                ) ==> exists|
                    i: Installable,
                    args: Vec<String>,
                |
                    {
                        &&& i@ == (InstallableView::Flake { reference, attribute: candidates[j] })
                        &&& #[trigger] call_ensures(to_args, (&i,), args)
                        &&& r->Err_0->tried@[j]@ == joined(args.deep_view(), " "@)
                    }
        },
{
    let k = if r is Ok {
        choose|k: int|
            {
                &&& 0 <= k < candidates.len()
                &&& r->Ok_0@ == flake(reference, #[trigger] candidates[k])
                &&& answers(probe, r->Ok_0@, Ok(true))
                &&& declines(probe, reference, candidates, k)
            }
    } else if exists|k: int|
        {
            &&& 0 <= k < candidates.len()
            &&& answers(probe, flake(reference, #[trigger] candidates[k]), Err(r->Err_0))
            &&& declines(probe, reference, candidates, k)
        } {
        choose|k: int|
            {
                &&& 0 <= k < candidates.len()
                &&& answers(probe, flake(reference, #[trigger] candidates[k]), Err(r->Err_0))
                &&& declines(probe, reference, candidates, k)
            }
    } else {
        candidates.len() as int
    };
    assert forall|attribute: Seq<Seq<char>>| #[trigger]
        candidates.take(k).contains(attribute) implies exists|i: Installable|
        i@ == (InstallableView::Flake { reference, attribute }) && #[trigger] call_ensures(
            probe,
            (&i,),
            Ok(false),
        ) by {
        let j = choose|j: int| 0 <= j < k && #[trigger] candidates.take(k)[j] == attribute;
        assert(answers(probe, flake(reference, candidates[j]), Ok(false)));
    }
    if r is Err && k == candidates.len() {
        let error = r->Err_0;
        assert forall|j: int|
            0 <= j < candidates.len() && error->tried@.contains(
                #[trigger] error->tried@[j],
            ) implies exists|
            i: Installable,
            args: Vec<String>,
        |
            {
                &&& i@ == (InstallableView::Flake { reference, attribute: candidates[j] })
                &&& #[trigger] call_ensures(to_args, (&i,), args)
                &&& error->tried@[j]@ == joined(args.deep_view(), " "@)
            } by {
            assert(error@->tried[j] == error->tried@[j]@);
            assert(shows(to_args, flake(reference, candidates[j]), error@->tried[j]));
        }
    }
    k
}

} // verus!

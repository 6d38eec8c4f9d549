//! Attribute paths of System Manager configurations.
use crate::error::{SystemError, SystemErrorView};
use crate::text::{copy_strings, reads};
use vstd::prelude::*;

verus! {

/// The attribute under which configurations live.
pub const SYSTEM_CONFIGS_ATTR: &'static str = "systemConfigs";

/// The configuration to fall back to.
pub const DEFAULT_PROFILE: &'static str = "default";

/// The paths to try, in order, for the attribute path given with a flake; `None` if the path has
/// more components than a configuration path can have.
pub open spec fn flake_candidates(
    attribute: Seq<Seq<char>>,
    current_system: Seq<char>,
    hostname: Seq<char>,
) -> Option<Seq<Seq<Seq<char>>>> {
    let root = SYSTEM_CONFIGS_ATTR@;
    let fallback = DEFAULT_PROFILE@;
    if attribute.len() == 0 || attribute == seq![root] {
        Some(
            seq![
                seq![root, current_system, hostname],
                seq![root, hostname],
                seq![root, current_system, fallback],
                seq![root, fallback],
            ],
        )
    } else if attribute.len() == 1 {
        Some(seq![seq![root, current_system, attribute[0]], seq![root, attribute[0]]])
    } else if attribute.len() <= 3 && attribute[0] == root {
        Some(seq![attribute])
    } else if attribute.len() == 2 {
        Some(seq![seq![root] + attribute])
    } else {
        None
    }
}

/// A path of two components.
fn path2(first: &str, second: &str) -> (r: Vec<String>)
    ensures
        r.deep_view() == seq![first@, second@],
{
    let r = vec![first.to_owned(), second.to_owned()];
    assert(r.deep_view() =~= seq![first@, second@]);
    r
}

/// A path of three components.
fn path3(first: &str, second: &str, third: &str) -> (r: Vec<String>)
    ensures
        r.deep_view() == seq![first@, second@, third@],
{
    let r = vec![first.to_owned(), second.to_owned(), third.to_owned()];
    assert(r.deep_view() =~= seq![first@, second@, third@]);
    r
}

/// The attribute paths to try, in order, for the attribute path given with a flake.
pub fn flake_attr_candidates(
    attribute: Vec<String>,
    current_system: &str,
    hostname: &str,
) -> (r: Result<Vec<Vec<String>>, SystemError>)
    ensures
        match r {
            Ok(candidates) => flake_candidates(
                attribute.deep_view(),
                current_system@,
                hostname@,
            ) == Some(candidates.deep_view()),
            Err(error) => {
                &&& flake_candidates(attribute.deep_view(), current_system@, hostname@) is None
                &&& error@ == (SystemErrorView::FlakeAttributeTooSpecific {
                    attribute: attribute.deep_view(),
                    current_system: current_system@,
                    hostname: hostname@,
                })
            },
        },
{
    let ghost given = attribute.deep_view();
    let rooted: bool = attribute.len() > 0 && reads(&attribute[0], SYSTEM_CONFIGS_ATTR);
    assert(rooted == (given.len() > 0 && given[0] == SYSTEM_CONFIGS_ATTR@));
    assert(rooted && given.len() == 1 ==> given =~= seq![SYSTEM_CONFIGS_ATTR@]);
    let mut candidates: Vec<Vec<String>> = Vec::new();
    if attribute.len() == 0 || (attribute.len() == 1 && rooted) {
        candidates.push(path3(SYSTEM_CONFIGS_ATTR, current_system, hostname));
        candidates.push(path2(SYSTEM_CONFIGS_ATTR, hostname));
        candidates.push(path3(SYSTEM_CONFIGS_ATTR, current_system, DEFAULT_PROFILE));
        candidates.push(path2(SYSTEM_CONFIGS_ATTR, DEFAULT_PROFILE));
    } else if attribute.len() == 1 {
        candidates.push(path3(SYSTEM_CONFIGS_ATTR, current_system, attribute[0].as_str()));
        candidates.push(path2(SYSTEM_CONFIGS_ATTR, attribute[0].as_str()));
    } else if attribute.len() <= 3 && rooted {
        candidates.push(attribute);
    } else if attribute.len() == 2 {
        let path = path3(SYSTEM_CONFIGS_ATTR, attribute[0].as_str(), attribute[1].as_str());
        assert(path.deep_view() =~= seq![SYSTEM_CONFIGS_ATTR@] + given);
        candidates.push(path);
    } else {
        return Err(
            SystemError::FlakeAttributeTooSpecific {
                attribute,
                current_system: current_system.to_owned(),
                hostname: hostname.to_owned(),
            },
        );
    }
    assert(flake_candidates(given, current_system@, hostname@)->0 =~= candidates.deep_view());
    Ok(candidates)
}

/// An attribute path given with a file or an expression, led by [`SYSTEM_CONFIGS_ATTR`].
pub open spec fn rooted(attribute: Seq<Seq<char>>) -> Seq<Seq<char>> {
    if attribute.len() > 0 && attribute[0] == SYSTEM_CONFIGS_ATTR@ {
        attribute
    } else {
        seq![SYSTEM_CONFIGS_ATTR@] + attribute
    }
}

/// The attribute path to use for the one given with a file or an expression, or why there is none.
pub open spec fn nonflake_attribute(attribute: Seq<Seq<char>>) -> Result<
    Seq<Seq<char>>,
    SystemErrorView,
> {
    if attribute.len() == 0 {
        Err(SystemErrorView::MissingAttribute)
    } else if rooted(attribute).len() > 3 {
        Err(SystemErrorView::AttributeTooSpecific { attribute: rooted(attribute) })
    } else {
        Ok(rooted(attribute))
    }
}

/// Leads the attribute path of a file or an expression from [`SYSTEM_CONFIGS_ATTR`]; a path that
/// is then too long is refused, and left so led.
pub fn normalize_nonflake_attribute(attribute: &mut Vec<String>) -> (r: Result<(), SystemError>)
    ensures
        match r {
            Ok(()) => nonflake_attribute(old(attribute).deep_view()) == Ok::<
                Seq<Seq<char>>,
                SystemErrorView,
            >(final(attribute).deep_view()),
            Err(error) => nonflake_attribute(old(attribute).deep_view()) == Err::<
                Seq<Seq<char>>,
                SystemErrorView,
            >(error@),
        },
        old(attribute).deep_view().len() == 0 ==> final(attribute).deep_view().len() == 0,
        old(attribute).deep_view().len() > 0 ==> final(attribute).deep_view() == rooted(
            old(attribute).deep_view(),
        ),
{
    let ghost given = attribute.deep_view();
    if attribute.len() == 0 {
        return Err(SystemError::MissingAttribute);
    }
    if !reads(&attribute[0], SYSTEM_CONFIGS_ATTR) {
        attribute.insert(0, SYSTEM_CONFIGS_ATTR.to_owned());
    }
    assert(attribute.deep_view() =~= rooted(given));
    if attribute.len() > 3 {
        return Err(
            SystemError::AttributeTooSpecific { attribute: copy_strings(attribute) },
        );
    }
    Ok(())
}

/// Every attribute path that is not refused gives at least one candidate, and each is a
/// configuration path: [`SYSTEM_CONFIGS_ATTR`] followed by a name, or by a system and a name.
pub proof fn law_candidates_are_configuration_paths(
    attribute: Seq<Seq<char>>,
    current_system: Seq<char>,
    hostname: Seq<char>,
)
    requires
        flake_candidates(attribute, current_system, hostname) is Some,
    ensures
        flake_candidates(attribute, current_system, hostname)->0.len() > 0,
        forall|k: int|
            #![trigger flake_candidates(attribute, current_system, hostname)->0[k]]
            0 <= k < flake_candidates(attribute, current_system, hostname)->0.len() ==> {
                let path = flake_candidates(attribute, current_system, hostname)->0[k];
                2 <= path.len() <= 3 && path[0] == SYSTEM_CONFIGS_ATTR@
            },
{
}

/// An attribute path is refused if and only if it has more components than a configuration path:
/// over three, or three that are not led by [`SYSTEM_CONFIGS_ATTR`].
pub proof fn law_only_longer_paths_are_refused(
    attribute: Seq<Seq<char>>,
    current_system: Seq<char>,
    hostname: Seq<char>,
)
    ensures
        flake_candidates(attribute, current_system, hostname) is None <==> rooted(attribute).len()
            > 3,
{
}

/// A candidate, given as attribute path, stands for itself alone, on every system and host.
pub proof fn law_candidates_stand_for_themselves(
    attribute: Seq<Seq<char>>,
    current_system: Seq<char>,
    hostname: Seq<char>,
    k: int,
    other_system: Seq<char>,
    other_hostname: Seq<char>,
)
    requires
        flake_candidates(attribute, current_system, hostname) is Some,
        0 <= k < flake_candidates(attribute, current_system, hostname)->0.len(),
    ensures
        ({
            let path = flake_candidates(attribute, current_system, hostname)->0[k];
            flake_candidates(path, other_system, other_hostname) == Some(seq![path])
        }),
{
    law_candidates_are_configuration_paths(attribute, current_system, hostname);
}

/// An attribute path of two components or more means the same on every system and host.
pub proof fn law_explicit_paths_are_absolute(
    attribute: Seq<Seq<char>>,
    current_system: Seq<char>,
    hostname: Seq<char>,
    other_system: Seq<char>,
    other_hostname: Seq<char>,
)
    requires
        attribute.len() >= 2,
    ensures
        flake_candidates(attribute, current_system, hostname) == flake_candidates(
            attribute,
            other_system,
            other_hostname,
        ),
{
}

/// A configuration that is named is sought under that name whatever the host is called.
pub proof fn law_names_do_not_depend_on_the_host(
    attribute: Seq<Seq<char>>,
    current_system: Seq<char>,
    hostname: Seq<char>,
    other_hostname: Seq<char>,
)
    requires
        attribute.len() >= 1,
        attribute != seq![SYSTEM_CONFIGS_ATTR@],
    ensures
        flake_candidates(attribute, current_system, hostname) == flake_candidates(
            attribute,
            current_system,
            other_hostname,
        ),
{
}

/// [`SYSTEM_CONFIGS_ATTR`] alone names no configuration: it is the same as no attribute path.
pub proof fn law_root_alone_names_nothing(current_system: Seq<char>, hostname: Seq<char>)
    ensures
        flake_candidates(seq![SYSTEM_CONFIGS_ATTR@], current_system, hostname) == flake_candidates(
            Seq::empty(),
            current_system,
            hostname,
        ),
{
}

/// Where a configuration is sought under a name alone, it was sought under that name for the
/// current system just before.
pub proof fn law_current_system_comes_first(
    attribute: Seq<Seq<char>>,
    current_system: Seq<char>,
    hostname: Seq<char>,
    k: int,
)
    requires
        attribute.len() <= 1,
        0 <= k < flake_candidates(attribute, current_system, hostname)->0.len(),
        flake_candidates(attribute, current_system, hostname)->0[k].len() == 2,
    ensures
        k > 0,
        flake_candidates(attribute, current_system, hostname)->0[k - 1] == seq![
            SYSTEM_CONFIGS_ATTR@,
            current_system,
            flake_candidates(attribute, current_system, hostname)->0[k][1],
        ],
{
}

/// Where no configuration is named, that of the host is sought before the fallback, and the last
/// candidate is the fallback for any system.
pub proof fn law_fallback_comes_last(current_system: Seq<char>, hostname: Seq<char>)
    ensures
        ({
            let candidates = flake_candidates(Seq::empty(), current_system, hostname)->0;
            &&& candidates[0].last() == hostname
            &&& candidates[1].last() == hostname
            &&& candidates.last() == seq![SYSTEM_CONFIGS_ATTR@, DEFAULT_PROFILE@]
        }),
{
}

/// An attribute path that was normalised is led by [`SYSTEM_CONFIGS_ATTR`], has at most three
/// components, and stays as it is when it is normalised again.
pub proof fn law_normalising_is_idempotent(attribute: Seq<Seq<char>>)
    requires
        nonflake_attribute(attribute) is Ok,
    ensures
        nonflake_attribute(attribute)->Ok_0[0] == SYSTEM_CONFIGS_ATTR@,
        nonflake_attribute(attribute)->Ok_0.len() <= 3,
        nonflake_attribute(nonflake_attribute(attribute)->Ok_0) == nonflake_attribute(attribute),
{
}

/// A name is sought under the current system first and under no system then, and nowhere else.
pub proof fn law_names_are_sought_in_two_places(
    name: Seq<char>,
    current_system: Seq<char>,
    hostname: Seq<char>,
)
    requires
        name != "systemConfigs"@,
    ensures
        ({
            let candidates = flake_candidates(seq![name], current_system, hostname);
            &&& candidates is Some
            &&& candidates->0.len() == 2
            &&& candidates->0[0].len() == 3
            &&& candidates->0[0][0] == "systemConfigs"@
            &&& candidates->0[0][1] == current_system
            &&& candidates->0[0][2] == name
            &&& candidates->0[1].len() == 2
            &&& candidates->0[1][0] == "systemConfigs"@
            &&& candidates->0[1][1] == name
        }),
{
}

/// Where nothing is named, what is sought is what would be sought for the name of the host and
/// then for the name `default`, in that order, whatever the host is called.
pub proof fn law_unnamed_means_host_then_default(current_system: Seq<char>, hostname: Seq<char>)
    ensures
        ({
            let candidates = flake_candidates(Seq::empty(), current_system, hostname);
            &&& candidates is Some
            &&& candidates->0.len() == 4
            &&& forall|k: int|
                #![trigger candidates->0[k]]
                0 <= k < 4 ==> {
                    &&& candidates->0[k].len() == 3 - k % 2
                    &&& candidates->0[k][0] == "systemConfigs"@
                    &&& k % 2 == 0 ==> candidates->0[k][1] == current_system
                    &&& candidates->0[k].last() == if k < 2 {
                        hostname
                    } else {
                        "default"@
                    }
                }
        }),
        hostname != "systemConfigs"@ ==> flake_candidates(
            Seq::empty(),
            current_system,
            hostname,
        )->0 == flake_candidates(seq![hostname], current_system, hostname)->0 + flake_candidates(
            seq!["default"@],
            current_system,
            hostname,
        )->0,
{
    let candidates = flake_candidates(Seq::empty(), current_system, hostname)->0;
    reveal_strlit("default");
    reveal_strlit("systemConfigs");
    assert("default"@.len() != "systemConfigs"@.len());
    if hostname != "systemConfigs"@ {
        assert(seq![hostname][0] != "systemConfigs"@);
        assert(seq!["default"@][0] != "systemConfigs"@);
        assert(candidates =~= flake_candidates(seq![hostname], current_system, hostname)->0
            + flake_candidates(seq!["default"@], current_system, hostname)->0);
    }
}

/// A path of two or three components that is led by `systemConfigs` stands for itself alone; one
/// of two components that is not stands for itself behind `systemConfigs` alone; anything longer
/// stands for nothing.
pub proof fn law_paths_stand_for_one_configuration(
    attribute: Seq<Seq<char>>,
    current_system: Seq<char>,
    hostname: Seq<char>,
)
    requires
        attribute.len() >= 2,
    ensures
        ({
            let candidates = flake_candidates(attribute, current_system, hostname);
            let led = attribute[0] == "systemConfigs"@;
            &&& candidates is None <==> attribute.len() > 3 || (attribute.len() == 3 && !led)
            &&& candidates is Some ==> candidates->0.len() == 1
            &&& candidates is Some && led ==> candidates->0[0] == attribute
            &&& candidates is Some && !led ==> candidates->0[0].len() == 3 && candidates->0[0][0]
                == "systemConfigs"@ && candidates->0[0][1] == attribute[0] && candidates->0[0][2]
                == attribute[1]
        }),
{
}

/// The attribute path of a file or an expression is kept whole, behind `systemConfigs`, which is
/// not repeated; it is refused if and only if there is none, or if it then has over three
/// components.
pub proof fn law_nonflake_attributes_are_kept_whole(attribute: Seq<Seq<char>>)
    ensures
        ({
            let led = attribute.len() > 0 && attribute[0] == "systemConfigs"@;
            let length = attribute.len() + if led {
                0int
            } else {
                1int
            };
            match nonflake_attribute(attribute) {
                Ok(path) => {
                    &&& attribute.len() > 0
                    &&& length <= 3
                    &&& path.len() == length
                    &&& path[0] == "systemConfigs"@
                    &&& forall|i: int|
                        0 <= i < attribute.len() ==> path[length - attribute.len() + i]
                            == #[trigger] attribute[i]
                },
                Err(SystemErrorView::MissingAttribute) => attribute.len() == 0,
                Err(SystemErrorView::AttributeTooSpecific { attribute: path }) => {
                    &&& attribute.len() > 0
                    &&& length > 3
                    &&& path.len() == length
                    &&& path[0] == "systemConfigs"@
                    &&& forall|i: int|
                        0 <= i < attribute.len() ==> path[length - attribute.len() + i]
                            == #[trigger] attribute[i]
                },
                Err(_) => false,
            }
        }),
{
}

} // verus!

//! Why a request is refused, and how that is said.
use crate::text::{copy_strings, join, joined};
use vstd::prelude::*;

verus! {

/// Why a request is refused.
#[derive(Debug, PartialEq, Eq)]
pub enum SystemError {
    /// A file or an expression came without an attribute path.
    MissingAttribute,
    /// The attribute path of a file or an expression is too long.
    AttributeTooSpecific { attribute: Vec<String> },
    /// The attribute path of a flake fits no form of a configuration path.
    FlakeAttributeTooSpecific {
        attribute: Vec<String>,
        current_system: String,
        hostname: String,
    },
    /// None of the candidates evaluated; each is given as it was tried.
    NoConfiguration { tried: Vec<String> },
    /// Nix did not name the current system.
    UnknownSystem,
    /// A store path was to be loaded in a REPL.
    StoreInRepl,
    /// The user declined to apply the configuration.
    Rejected,
}

/// The content of a [`SystemError`].
#[verifier::ext_equal]
pub ghost enum SystemErrorView {
    MissingAttribute,
    AttributeTooSpecific { attribute: Seq<Seq<char>> },
    FlakeAttributeTooSpecific {
        attribute: Seq<Seq<char>>,
        current_system: Seq<char>,
        hostname: Seq<char>,
    },
    NoConfiguration { tried: Seq<Seq<char>> },
    UnknownSystem,
    StoreInRepl,
    Rejected,
}

impl View for SystemError {
    type V = SystemErrorView;

    open spec fn view(&self) -> SystemErrorView {
        match *self {
            SystemError::MissingAttribute => SystemErrorView::MissingAttribute,
            SystemError::AttributeTooSpecific { attribute } => {
                SystemErrorView::AttributeTooSpecific { attribute: attribute.deep_view() }
            },
            SystemError::FlakeAttributeTooSpecific { attribute, current_system, hostname } => {
                SystemErrorView::FlakeAttributeTooSpecific {
                    attribute: attribute.deep_view(),
                    current_system: current_system@,
                    hostname: hostname@,
                }
            },
            SystemError::NoConfiguration { tried } => SystemErrorView::NoConfiguration {
                tried: tried.deep_view(),
            },
            SystemError::UnknownSystem => SystemErrorView::UnknownSystem,
            SystemError::StoreInRepl => SystemErrorView::StoreInRepl,
            SystemError::Rejected => SystemErrorView::Rejected,
        }
    }
}

impl SystemErrorView {
    /// What the user is told.
    pub open spec fn message(self) -> Seq<char> {
        match self {
            SystemErrorView::MissingAttribute => {
                "System Manager requires an explicit attribute path when using --file or --expr"@
            },
            SystemErrorView::AttributeTooSpecific { attribute } => {
                "Attribute path is too specific: "@ + joined(attribute, "."@)
                    + ". Please specify only the configuration name (e.g., '.#default') or the explicit systemConfigs path."@
            },
            SystemErrorView::FlakeAttributeTooSpecific { attribute, current_system, hostname } => {
                "Attribute path is too specific: "@ + joined(attribute, "."@)
                    + ". Please either:\n  1. Use the flake reference without attributes (e.g., '.')\n  2. Specify only the configuration name (e.g., '.#"@
                    + hostname
                    + "')\n  3. Use an explicit systemConfigs path (e.g., '.#systemConfigs."@
                    + current_system + "."@ + hostname + "')"@
            },
            SystemErrorView::NoConfiguration { tried } => {
                "Couldn't find system-manager configuration automatically, tried: "@ + joined(
                    tried,
                    ", "@,
                )
            },
            SystemErrorView::UnknownSystem => "Couldn't determine current Nix system"@,
            SystemErrorView::StoreInRepl => "Nix doesn't support nix store installables."@,
            SystemErrorView::Rejected => "User rejected the new config"@,
        }
    }
}

impl SystemError {
    /// What the user is told.
    pub fn to_string(&self) -> (r: String)
        ensures
            r@ == self@.message(),
    {
        match self {
            SystemError::MissingAttribute => {
                "System Manager requires an explicit attribute path when using --file or --expr".to_owned()
            },
            SystemError::AttributeTooSpecific { attribute } => {
                "Attribute path is too specific: ".to_owned().concat(
                    join(attribute, ".").as_str(),
                ).concat(
                    ". Please specify only the configuration name (e.g., '.#default') or the explicit systemConfigs path.",
                )
            },
            SystemError::FlakeAttributeTooSpecific { attribute, current_system, hostname } => {
                "Attribute path is too specific: ".to_owned().concat(
                    join(attribute, ".").as_str(),
                ).concat(
                    ". Please either:\n  1. Use the flake reference without attributes (e.g., '.')\n  2. Specify only the configuration name (e.g., '.#",
                ).concat(hostname.as_str()).concat(
                    "')\n  3. Use an explicit systemConfigs path (e.g., '.#systemConfigs.",
                ).concat(current_system.as_str()).concat(".").concat(hostname.as_str()).concat("')")
            },
            SystemError::NoConfiguration { tried } => {
                "Couldn't find system-manager configuration automatically, tried: ".to_owned().concat(
                    join(tried, ", ").as_str(),
                )
            },
            SystemError::UnknownSystem => "Couldn't determine current Nix system".to_owned(),
            SystemError::StoreInRepl => "Nix doesn't support nix store installables.".to_owned(),
            SystemError::Rejected => "User rejected the new config".to_owned(),
        }
    }
}

impl Clone for SystemError {
    fn clone(&self) -> (r: Self)
        ensures
            r@ == self@,
    {
        match self {
            SystemError::MissingAttribute => SystemError::MissingAttribute,
            SystemError::AttributeTooSpecific { attribute } => SystemError::AttributeTooSpecific {
                attribute: copy_strings(attribute),
            },
            SystemError::FlakeAttributeTooSpecific { attribute, current_system, hostname } => {
                SystemError::FlakeAttributeTooSpecific {
                    attribute: copy_strings(attribute),
                    current_system: current_system.clone(),
                    hostname: hostname.clone(),
                }
            },
            SystemError::NoConfiguration { tried } => SystemError::NoConfiguration {
                tried: copy_strings(tried),
            },
            SystemError::UnknownSystem => SystemError::UnknownSystem,
            SystemError::StoreInRepl => SystemError::StoreInRepl,
            SystemError::Rejected => SystemError::Rejected,
        }
    }
}

/// That `whole` is made of `parts`, one right behind the other.
pub open spec fn is_made_of(whole: Seq<char>, parts: Seq<Seq<char>>) -> bool
    decreases parts.len(),
{
    if parts.len() == 0 {
        whole.len() == 0
    } else {
        &&& whole.len() >= parts[0].len()
        &&& whole.take(parts[0].len() as int) == parts[0]
        &&& is_made_of(whole.skip(parts[0].len() as int), parts.drop_first())
    }
}

proof fn lemma_made_of(first: Seq<char>, rest: Seq<char>, parts: Seq<Seq<char>>)
    requires
        parts.len() > 0,
        parts[0] == first,
        is_made_of(rest, parts.drop_first()),
    ensures
        is_made_of(first + rest, parts),
{
    assert((first + rest).take(first.len() as int) =~= first);
    assert((first + rest).skip(first.len() as int) =~= rest);
}

/// The refusal of an attribute path shows the whole path, dotted, and says what to write instead;
/// that of a flake shows the system and the host as well.
pub proof fn law_refused_paths_are_shown(
    attribute: Seq<Seq<char>>,
    current_system: Seq<char>,
    hostname: Seq<char>,
)
    ensures
        is_made_of(
            (SystemErrorView::AttributeTooSpecific { attribute }).message(),
            seq![
                "Attribute path is too specific: "@,
                joined(attribute, "."@),
                ". Please specify only the configuration name (e.g., '.#default') or the explicit systemConfigs path."@,
            ],
        ),
        is_made_of(
            (SystemErrorView::FlakeAttributeTooSpecific {
                attribute,
                current_system,
                hostname,
            }).message(),
            seq![
                "Attribute path is too specific: "@,
                joined(attribute, "."@),
                ". Please either:\n  1. Use the flake reference without attributes (e.g., '.')\n  2. Specify only the configuration name (e.g., '.#"@,
                hostname,
                "')\n  3. Use an explicit systemConfigs path (e.g., '.#systemConfigs."@,
                current_system,
                "."@,
                hostname,
                "')"@,
            ],
        ),
{
    let a = "Attribute path is too specific: "@;
    let b = joined(attribute, "."@);
    let c =
        ". Please specify only the configuration name (e.g., '.#default') or the explicit systemConfigs path."@;
    lemma_three(a, b, c);
    assert((SystemErrorView::AttributeTooSpecific { attribute }).message() =~= a + (b + (c
        + Seq::empty())));
    let d =
        ". Please either:\n  1. Use the flake reference without attributes (e.g., '.')\n  2. Specify only the configuration name (e.g., '.#"@;
    let e = "')\n  3. Use an explicit systemConfigs path (e.g., '.#systemConfigs."@;
    let f = "."@;
    let g = "')"@;
    let p9 = seq![a, b, d, hostname, e, current_system, f, hostname, g];
    let p8 = seq![b, d, hostname, e, current_system, f, hostname, g];
    let p7 = seq![d, hostname, e, current_system, f, hostname, g];
    let p6 = seq![hostname, e, current_system, f, hostname, g];
    let p5 = seq![e, current_system, f, hostname, g];
    let p4 = seq![current_system, f, hostname, g];
    let p3 = seq![f, hostname, g];
    assert(p9.drop_first() =~= p8);
    assert(p8.drop_first() =~= p7);
    assert(p7.drop_first() =~= p6);
    assert(p6.drop_first() =~= p5);
    assert(p5.drop_first() =~= p4);
    assert(p4.drop_first() =~= p3);
    let r3 = f + (hostname + (g + Seq::empty()));
    lemma_three(f, hostname, g);
    lemma_made_of(current_system, r3, p4);
    let r4 = current_system + r3;
    lemma_made_of(e, r4, p5);
    let r5 = e + r4;
    lemma_made_of(hostname, r5, p6);
    let r6 = hostname + r5;
    lemma_made_of(d, r6, p7);
    let r7 = d + r6;
    lemma_made_of(b, r7, p8);
    let r8 = b + r7;
    lemma_made_of(a, r8, p9);
    assert((SystemErrorView::FlakeAttributeTooSpecific {
        attribute,
        current_system,
        hostname,
    }).message() =~= a + r8);
}

proof fn lemma_three(first: Seq<char>, second: Seq<char>, third: Seq<char>)
    ensures
        is_made_of(first + (second + (third + Seq::empty())), seq![first, second, third]),
{
    let none = Seq::<Seq<char>>::empty();
    assert(seq![third].drop_first() =~= none);
    assert(seq![second, third].drop_first() =~= seq![third]);
    assert(seq![first, second, third].drop_first() =~= seq![second, third]);
    lemma_made_of(third, Seq::empty(), seq![third]);
    lemma_made_of(second, third + Seq::empty(), seq![second, third]);
    lemma_made_of(first, second + (third + Seq::empty()), seq![first, second, third]);
}

/// The refusal for want of a configuration shows everything that was tried, in order, with a comma
/// between neighbours.
pub proof fn law_tried_candidates_are_shown(tried: Seq<Seq<char>>)
    ensures
        is_made_of(
            (SystemErrorView::NoConfiguration { tried }).message(),
            seq![
                "Couldn't find system-manager configuration automatically, tried: "@,
                joined(tried, ", "@),
            ],
        ),
{
    let a = "Couldn't find system-manager configuration automatically, tried: "@;
    let b = joined(tried, ", "@);
    assert(seq![b].drop_first() =~= Seq::<Seq<char>>::empty());
    assert(seq![a, b].drop_first() =~= seq![b]);
    lemma_made_of(b, Seq::empty(), seq![b]);
    lemma_made_of(a, b + Seq::empty(), seq![a, b]);
    assert(b + Seq::empty() =~= b);
}

/// The refusals that carry nothing each have their own words.
pub proof fn law_plain_refusals_have_their_words(error: SystemErrorView)
    ensures
        match error {
            SystemErrorView::MissingAttribute => error.message()
                == "System Manager requires an explicit attribute path when using --file or --expr"@,
            SystemErrorView::UnknownSystem => error.message()
                == "Couldn't determine current Nix system"@,
            SystemErrorView::StoreInRepl => error.message()
                == "Nix doesn't support nix store installables."@,
            SystemErrorView::Rejected => error.message() == "User rejected the new config"@,
            _ => true,
        },
{
}

/// The content of an error tells its kind and all that it carries.
pub proof fn law_error_content_is_complete(error: SystemError)
    ensures
        match error {
            SystemError::MissingAttribute => error@ is MissingAttribute,
            SystemError::AttributeTooSpecific { attribute } => {
                &&& error@ is AttributeTooSpecific
                &&& error@->AttributeTooSpecific_attribute == attribute.deep_view()
            },
            SystemError::FlakeAttributeTooSpecific { attribute, current_system, hostname } => {
                &&& error@ is FlakeAttributeTooSpecific
                &&& error@->FlakeAttributeTooSpecific_attribute == attribute.deep_view()
                &&& error@->current_system == current_system@
                &&& error@->hostname == hostname@
            },
            SystemError::NoConfiguration { tried } => {
                &&& error@ is NoConfiguration
                &&& error@->tried == tried.deep_view()
            },
            SystemError::UnknownSystem => error@ is UnknownSystem,
            SystemError::StoreInRepl => error@ is StoreInRepl,
            SystemError::Rejected => error@ is Rejected,
        },
{
}

} // verus!

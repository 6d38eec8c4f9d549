//! What the user asked for on the command line.
use crate::installable::Installable;
use crate::os_text::OsText;
use vstd::prelude::*;

verus! {

/// System Manager functionality.
#[derive(Debug)]
pub struct SystemArgs {
    pub subcommand: SystemSubcommand,
}

/// What to do with a configuration.
#[derive(Debug)]
pub enum SystemSubcommand {
    /// Build and activate a system-manager configuration.
    Switch(SystemRebuildArgs),
    /// Build a system-manager configuration.
    Build(SystemRebuildArgs),
    /// Load a system-manager configuration in a Nix REPL.
    Repl(SystemReplArgs),
}

/// How a configuration is built.
#[derive(Debug)]
pub struct SystemRebuildArgs {
    pub common: CommonRebuildArgs,
    pub update_args: UpdateArgs,
    /// When using a flake installable, select this hostname from systemConfigs.
    pub hostname: Option<String>,
    /// Extra arguments passed to nix build.
    pub extra_args: Vec<String>,
    /// Show activation logs.
    pub show_activation_logs: bool,
}

/// What is loaded in a REPL.
#[derive(Debug)]
pub struct SystemReplArgs {
    pub installable: Installable,
    /// When using a flake installable, select this hostname from systemConfigs.
    pub hostname: Option<String>,
}

/// The options that every kind of rebuild has.
#[derive(Debug)]
pub struct CommonRebuildArgs {
    /// What to build.
    pub installable: Installable,
    /// Where to link the result; a temporary place if it is not given.
    pub out_link: Option<OsText>,
    /// Ask before activating.
    pub ask: bool,
    /// Build only.
    pub dry: bool,
    /// Do not use nix-output-monitor.
    pub no_nom: bool,
    /// When to show what changes.
    pub diff: DiffType,
    pub passthrough: NixBuildPassthroughArgs,
}

/// When to show what changes.
#[derive(Debug, Clone, Copy, PartialEq, Eq, Structural)]
pub enum DiffType {
    Always,
    Auto,
    Never,
}

/// The options passed through to Nix, as far as anything here depends on them; whoever builds knows
/// the others.
#[derive(Debug, Clone, Copy, PartialEq, Eq, Structural)]
pub struct NixBuildPassthroughArgs {
    /// Commit the lock file once it is updated.
    pub commit_lock_file: bool,
}

/// Which inputs of a flake to update before building.
#[derive(Debug)]
pub struct UpdateArgs {
    /// Update all inputs.
    pub update_all: bool,
    /// Update these inputs.
    pub update_input: Option<Vec<String>>,
}

/// The features of Nix that a request depends on.
#[derive(Debug, Clone, Copy, PartialEq, Eq, Structural)]
pub enum FeatureRequirements {
    /// What building from a flake takes.
    FlakeFeatures,
    /// What building from anything else takes.
    LegacyFeatures,
    /// What a REPL takes, with a flake or without.
    SystemReplFeatures { is_flake: bool },
}

/// Whether flakes are in play: `system_flake`, the value of `NH_SYSTEM_FLAKE`, names one, or
/// `installable` is one.
pub open spec fn flake_in_use(installable: Installable, system_flake: Option<Seq<char>>) -> bool {
    ||| system_flake is Some && system_flake->0.len() > 0
    ||| installable is Flake
}

/// Whether `installable` is a flake or `system_flake` names one.
fn is_flake_in_use(installable: &Installable, system_flake: Option<&str>) -> (r: bool)
    ensures
        r == flake_in_use(*installable, system_flake.deep_view()),
{
    if let Some(flake) = system_flake {
        if !flake.is_empty() {
            return true;
        }
    }
    matches!(installable, Installable::Flake { .. })
}

impl SystemRebuildArgs {
    /// Whether flakes are in play, given the value of `NH_SYSTEM_FLAKE`, if it is set.
    #[must_use]
    pub fn uses_flakes(&self, system_flake: Option<&str>) -> (r: bool)
        ensures
            r == flake_in_use(self.common.installable, system_flake.deep_view()),
    {
        is_flake_in_use(&self.common.installable, system_flake)
    }
}

impl SystemReplArgs {
    /// Whether flakes are in play, given the value of `NH_SYSTEM_FLAKE`, if it is set.
    #[must_use]
    pub fn uses_flakes(&self, system_flake: Option<&str>) -> (r: bool)
        ensures
            r == flake_in_use(self.installable, system_flake.deep_view()),
    {
        is_flake_in_use(&self.installable, system_flake)
    }
}

impl SystemArgs {
    /// The features of Nix that the request depends on.
    pub open spec fn required_features(self, system_flake: Option<Seq<char>>) -> FeatureRequirements {
        match self.subcommand {
            SystemSubcommand::Repl(args) => FeatureRequirements::SystemReplFeatures {
                is_flake: flake_in_use(args.installable, system_flake),
            },
            SystemSubcommand::Switch(args) | SystemSubcommand::Build(args) => {
                if flake_in_use(args.common.installable, system_flake) {
                    FeatureRequirements::FlakeFeatures
                } else {
                    FeatureRequirements::LegacyFeatures
                }
            },
        }
    }

    /// The features of Nix that the request depends on, given the value of `NH_SYSTEM_FLAKE`, if
    /// it is set.
    #[must_use]
    pub fn get_feature_requirements(&self, system_flake: Option<&str>) -> (r: FeatureRequirements)
        ensures
            r == self.required_features(system_flake.deep_view()),
    {
        match &self.subcommand {
            SystemSubcommand::Repl(args) => FeatureRequirements::SystemReplFeatures {
                is_flake: args.uses_flakes(system_flake),
            },
            SystemSubcommand::Switch(args) | SystemSubcommand::Build(args) => {
                if args.uses_flakes(system_flake) {
                    FeatureRequirements::FlakeFeatures
                } else {
                    FeatureRequirements::LegacyFeatures
                }
            },
        }
    }
}

/// Flakes are in play if `NH_SYSTEM_FLAKE` is set to anything but nothing, and otherwise exactly if
/// a flake was named, whatever it is called.
pub proof fn law_flakes_are_in_play_if_named(
    installable: Installable,
    system_flake: Option<Seq<char>>,
)
    ensures
        match system_flake {
            Some(flake) if flake.len() > 0 => flake_in_use(installable, system_flake),
            _ => flake_in_use(installable, system_flake) <==> (match installable {
                Installable::Flake { .. } => true,
                _ => false,
            }),
        },
{
}

/// To switch and to build take the same features, those of flakes exactly if flakes are in play; a
/// REPL takes its own, which tell whether they are.
pub proof fn law_features_depend_on_flakes_alone(
    request: SystemArgs,
    system_flake: Option<Seq<char>>,
)
    ensures
        ({
            let features = request.required_features(system_flake);
            let named = system_flake is Some && system_flake->0.len() > 0;
            match request.subcommand {
                SystemSubcommand::Switch(args) | SystemSubcommand::Build(args) => {
                    if named || args.common.installable is Flake {
                        features is FlakeFeatures
                    } else {
                        features is LegacyFeatures
                    }
                },
                SystemSubcommand::Repl(args) => {
                    &&& features is SystemReplFeatures
                    &&& features->is_flake == (named || args.installable is Flake)
                },
            }
        }),
{
}

} // verus!

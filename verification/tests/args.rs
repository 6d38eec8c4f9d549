use nh_system::args::{
    CommonRebuildArgs, DiffType, FeatureRequirements, NixBuildPassthroughArgs, SystemArgs,
    SystemRebuildArgs, SystemReplArgs, SystemSubcommand, UpdateArgs,
};
use nh_system::installable::Installable;
use nh_system::os_text::OsText;

fn flake() -> Installable {
    Installable::Flake {
        reference: ".".to_string(),
        attribute: vec![],
    }
}

fn store() -> Installable {
    Installable::Store {
        path: OsText::from_text("/nix/store/x"),
    }
}

fn rebuild(installable: Installable) -> SystemRebuildArgs {
    SystemRebuildArgs {
        common: CommonRebuildArgs {
            installable,
            out_link: None,
            ask: false,
            dry: false,
            no_nom: false,
            diff: DiffType::Auto,
            passthrough: NixBuildPassthroughArgs {
                commit_lock_file: false,
            },
        },
        update_args: UpdateArgs {
            update_all: false,
            update_input: None,
        },
        hostname: None,
        extra_args: vec![],
        show_activation_logs: false,
    }
}

fn repl(installable: Installable) -> SystemReplArgs {
    SystemReplArgs {
        installable,
        hostname: None,
    }
}

#[test]
fn flakes_are_used_if_named_anywhere() {
    for (installable, variable, expected) in [
        (flake(), None, true),
        (flake(), Some(""), true),
        (store(), None, false),
        (store(), Some(""), false),
        (store(), Some("/etc/flake"), true),
        (Installable::Unspecified, None, false),
        (Installable::Unspecified, Some("."), true),
    ] {
        assert_eq!(rebuild(installable.clone()).uses_flakes(variable), expected);
        assert_eq!(repl(installable).uses_flakes(variable), expected);
    }
}

#[test]
fn features_follow_the_use_of_flakes() {
    let features = |subcommand: SystemSubcommand, variable: Option<&str>| {
        SystemArgs { subcommand }.get_feature_requirements(variable)
    };
    assert_eq!(
        features(SystemSubcommand::Switch(rebuild(flake())), None),
        FeatureRequirements::FlakeFeatures
    );
    assert_eq!(
        features(SystemSubcommand::Build(rebuild(store())), None),
        FeatureRequirements::LegacyFeatures
    );
    assert_eq!(
        features(SystemSubcommand::Build(rebuild(store())), Some(".")),
        FeatureRequirements::FlakeFeatures
    );
    assert_eq!(
        features(SystemSubcommand::Repl(repl(store())), None),
        FeatureRequirements::SystemReplFeatures { is_flake: false }
    );
    assert_eq!(
        features(SystemSubcommand::Repl(repl(flake())), None),
        FeatureRequirements::SystemReplFeatures { is_flake: true }
    );
}

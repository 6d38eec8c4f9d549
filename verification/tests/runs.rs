use nh_system::args::{
    CommonRebuildArgs, DiffType, NixBuildPassthroughArgs, SystemArgs, SystemRebuildArgs,
    SystemReplArgs, SystemSubcommand, UpdateArgs,
};
use nh_system::error::SystemError;
use nh_system::installable::Installable;
use nh_system::os_text::OsText;
use nh_system::session::{Action, Event, Outcome, Stage};
use nh_system::system::SystemRun;

const PROFILE: &str = "/nix/var/nix/profiles/system-manager-profiles/system-manager";

fn strings(parts: &[&str]) -> Vec<String> {
    parts.iter().map(|part| part.to_string()).collect()
}

fn flake(attribute: &[&str]) -> Installable {
    Installable::Flake {
        reference: ".".to_string(),
        attribute: strings(attribute),
    }
}

fn expression() -> Installable {
    Installable::Expression {
        expression: "{}".to_string(),
        attribute: strings(&["server"]),
    }
}

fn rooted_expression() -> Installable {
    Installable::Expression {
        expression: "{}".to_string(),
        attribute: strings(&["systemConfigs", "server"]),
    }
}

fn store() -> Installable {
    Installable::Store {
        path: OsText::from_text("/nix/store/x"),
    }
}

fn args(installable: Installable) -> SystemRebuildArgs {
    SystemRebuildArgs {
        common: CommonRebuildArgs {
            installable,
            out_link: Some(OsText::from_text("/out")),
            ask: false,
            dry: false,
            no_nom: false,
            diff: DiffType::Never,
            passthrough: NixBuildPassthroughArgs {
                commit_lock_file: false,
            },
        },
        update_args: UpdateArgs {
            update_all: false,
            update_input: None,
        },
        hostname: None,
        extra_args: vec![],
        show_activation_logs: false,
    }
}

fn switch(args: SystemRebuildArgs) -> SystemRun {
    SystemArgs {
        subcommand: SystemSubcommand::Switch(args),
    }
    .run()
}

fn build(args: SystemRebuildArgs) -> SystemRun {
    SystemArgs {
        subcommand: SystemSubcommand::Build(args),
    }
    .run()
}

fn repl(installable: Installable, hostname: Option<&str>) -> SystemRun {
    SystemArgs {
        subcommand: SystemSubcommand::Repl(SystemReplArgs {
            installable,
            hostname: hostname.map(str::to_string),
        }),
    }
    .run()
}

fn resolved(installable: Installable) -> Event {
    Event::Resolved { installable }
}

fn success() -> Action {
    Action::Finish {
        outcome: Outcome::Success,
    }
}

fn failed(stage: Stage) -> Action {
    Action::Finish {
        outcome: Outcome::Failed { stage },
    }
}

fn refused(error: SystemError) -> Action {
    Action::Finish {
        outcome: Outcome::Refused { error },
    }
}

#[test]
fn switch_builds_and_activates() {
    let mut rebuild = args(expression());
    rebuild.extra_args = strings(&["--impure"]);
    rebuild.show_activation_logs = true;
    rebuild.common.passthrough.commit_lock_file = true;
    let mut run = switch(rebuild);
    assert_eq!(
        run.action(),
        Action::Resolve {
            installable: expression()
        }
    );
    run = run.next(resolved(expression()));
    match run.action() {
        Action::Build { request } => {
            assert_eq!(request.target, rooted_expression());
            assert_eq!(
                request.args,
                vec![
                    OsText::from_text("--out-link"),
                    OsText::from_text("/out"),
                    OsText::from_text("--impure")
                ]
            );
            assert_eq!(request.message, "Building System Manager configuration");
            assert!(request.nom);
            assert!(request.passthrough.commit_lock_file);
        }
        other => panic!("{:?}", other),
    }
    run = run.next(Event::Done);
    assert_eq!(run.action(), Action::QueryUser);
    run = run.next(Event::User { uid: 1000 });
    match run.action() {
        Action::Activate { command } => {
            assert_eq!(command.program, OsText::from_text("/out/bin/activate"));
            assert!(command.args.is_empty());
            assert_eq!(command.message, Some("Activating configuration".to_string()));
            assert!(command.elevate);
            assert!(command.show_output);
            assert!(command.required_env);
        }
        other => panic!("{:?}", other),
    }
    run = run.next(Event::Done);
    assert_eq!(run.action(), success());
    assert_eq!(run.next(Event::Failed).action(), success());
}

#[test]
fn root_is_not_elevated() {
    let run = switch(args(store()))
        .next(resolved(store()))
        .next(Event::Done)
        .next(Event::User { uid: 0 });
    match run.action() {
        Action::Activate { command } => {
            assert!(!command.elevate);
            assert!(!command.show_output);
        }
        other => panic!("{:?}", other),
    }
    assert_eq!(run.next(Event::Failed).action(), failed(Stage::Activate));
}

#[test]
fn results_go_to_a_temporary_place_by_default() {
    let mut rebuild = args(store());
    rebuild.common.out_link = None;
    rebuild.common.no_nom = true;
    let run = switch(rebuild);
    assert_eq!(
        run.action(),
        Action::CreateTempDir {
            prefix: "nh-system".to_string()
        }
    );
    let run = run
        .next(Event::Directory {
            path: OsText::from_text("/tmp/nh-systemX"),
        })
        .next(resolved(store()));
    match run.action() {
        Action::Build { request } => {
            assert_eq!(request.args[1], OsText::from_text("/tmp/nh-systemX/result"));
            assert!(!request.nom);
        }
        other => panic!("{:?}", other),
    }
}

#[test]
fn a_default_is_found_where_nothing_is_named() {
    let run = switch(args(Installable::Unspecified)).next(resolved(Installable::Unspecified));
    assert_eq!(run.action(), Action::FindDefault);
    let run = run.next(resolved(Installable::Unspecified));
    assert_eq!(run.action(), Action::FindDefault);
    let run = run.next(resolved(store()));
    assert!(matches!(run.action(), Action::Build { .. }));
}

#[test]
fn inputs_are_updated_first() {
    let mut rebuild = args(store());
    rebuild.update_args.update_input = Some(strings(&["nixpkgs"]));
    rebuild.common.passthrough.commit_lock_file = true;
    let run = switch(rebuild).next(resolved(store()));
    assert_eq!(
        run.action(),
        Action::Update {
            installable: store(),
            input: Some(strings(&["nixpkgs"])),
            commit_lock_file: true,
        }
    );
    assert!(matches!(run.next(Event::Done).action(), Action::Build { .. }));

    let mut rebuild = args(store());
    rebuild.update_args.update_all = true;
    let run = build(rebuild).next(resolved(store()));
    assert_eq!(
        run.action(),
        Action::Update {
            installable: store(),
            input: None,
            commit_lock_file: false,
        }
    );
    assert_eq!(run.next(Event::Failed).action(), failed(Stage::Update));
}

#[test]
fn changes_are_shown_if_there_is_something_to_compare() {
    let start = |diff: DiffType| {
        let mut rebuild = args(store());
        rebuild.common.diff = diff;
        build(rebuild).next(resolved(store())).next(Event::Done)
    };
    assert_eq!(start(DiffType::Never).action(), success());
    for diff in [DiffType::Auto, DiffType::Always] {
        assert_eq!(
            start(diff).action(),
            Action::CheckPath {
                path: OsText::from_text(PROFILE)
            }
        );
        assert_eq!(start(diff).next(Event::Exists { exists: false }).action(), success());
        let run = start(diff).next(Event::Exists { exists: true });
        assert_eq!(
            run.action(),
            Action::ShowDiff {
                before: OsText::from_text(PROFILE),
                after: OsText::from_text("/out"),
            }
        );
        assert_eq!(run.next(Event::Failed).action(), success());
        let run = start(diff).next(Event::Exists { exists: true });
        assert_eq!(run.next(Event::Done).action(), success());
    }
}

#[test]
fn the_user_is_asked_before_activation() {
    let start = || {
        let mut rebuild = args(store());
        rebuild.common.ask = true;
        switch(rebuild).next(resolved(store())).next(Event::Done)
    };
    assert_eq!(
        start().action(),
        Action::Confirm {
            question: "Apply the config?".to_string(),
            default: false,
        }
    );
    assert_eq!(start().next(Event::Confirmed { confirmed: true }).action(), Action::QueryUser);
    assert_eq!(
        start().next(Event::Confirmed { confirmed: false }).action(),
        refused(SystemError::Rejected)
    );
    assert_eq!(start().next(Event::Failed).action(), failed(Stage::Confirm));
    assert_eq!(SystemError::Rejected.to_string(), "User rejected the new config");
}

#[test]
fn dry_runs_stop_after_the_build() {
    let mut rebuild = args(store());
    rebuild.common.dry = true;
    let run = switch(rebuild).next(resolved(store())).next(Event::Done);
    assert_eq!(run.action(), success());

    let mut rebuild = args(store());
    rebuild.common.dry = true;
    rebuild.common.ask = true;
    let run = switch(rebuild).next(resolved(store())).next(Event::Done);
    assert_eq!(
        run.action(),
        Action::Warn {
            message: "--ask has no effect as dry run was requested".to_string()
        }
    );
    assert_eq!(run.next(Event::Done).action(), success());
}

#[test]
fn build_warns_of_options_without_effect() {
    for (ask, dry) in [(true, false), (false, true), (true, true)] {
        let mut rebuild = args(store());
        rebuild.common.ask = ask;
        rebuild.common.dry = dry;
        let run = build(rebuild);
        assert_eq!(
            run.action(),
            Action::Warn {
                message: "`--ask` and `--dry` have no effect for `nh system build`".to_string()
            }
        );
        let run = run.next(Event::Failed).next(Event::Done);
        assert!(matches!(run.action(), Action::Resolve { .. }));
        let run = run.next(resolved(store())).next(Event::Done);
        if ask {
            assert!(matches!(run.action(), Action::Warn { .. }));
        } else {
            assert_eq!(run.action(), success());
        }
    }
    assert!(matches!(build(args(store())).action(), Action::Resolve { .. }));
}

#[test]
fn flakes_are_searched_for_a_configuration() {
    let mut rebuild = args(flake(&[]));
    rebuild.hostname = Some("edge".to_string());
    rebuild.extra_args = strings(&["--impure"]);
    let mut run = switch(rebuild).next(resolved(flake(&[])));
    match run.action() {
        Action::QuerySystem { command } => {
            assert_eq!(command.program, OsText::from_text("nix"));
            assert_eq!(command.args, strings(&["config", "show", "system"]));
            assert!(command.required_env && !command.elevate && !command.show_output);
            assert_eq!(command.message, None);
        }
        other => panic!("{:?}", other),
    }
    run = run.next(Event::Captured {
        output: Some("x86_64-linux\n".to_string()),
    });
    assert_eq!(
        run.action(),
        Action::QueryHostname {
            hostname: Some("edge".to_string())
        }
    );
    run = run.next(Event::Hostname {
        hostname: "edge".to_string(),
    });
    for attribute in [
        vec!["systemConfigs", "x86_64-linux", "edge"],
        vec!["systemConfigs", "edge"],
        vec!["systemConfigs", "x86_64-linux", "default"],
    ] {
        assert_eq!(
            run.action(),
            Action::ListArguments {
                installable: flake(&attribute)
            }
        );
        let written = format!(".#{}", attribute.join("."));
        run = run.next(Event::Arguments {
            args: vec![written.clone()],
        });
        match run.action() {
            Action::Evaluate { command } => {
                assert_eq!(command.program, OsText::from_text("nix"));
                assert_eq!(command.args, strings(&["eval", "--impure", &written]));
                assert!(command.required_env && !command.elevate && !command.show_output);
            }
            other => panic!("{:?}", other),
        }
        run = run.next(Event::Failed);
    }
    run = run.next(Event::Arguments {
        args: strings(&[".#systemConfigs.default"]),
    });
    run = run.next(Event::Done);
    match run.action() {
        Action::Build { request } => {
            assert_eq!(request.target, flake(&["systemConfigs", "default"]))
        }
        other => panic!("{:?}", other),
    }
}

#[test]
fn a_search_can_be_in_vain() {
    let mut run = switch(args(flake(&["server"])))
        .next(resolved(flake(&["server"])))
        .next(Event::Captured {
            output: Some("x86_64-linux".to_string()),
        })
        .next(Event::Hostname {
            hostname: "edge".to_string(),
        });
    for written in ["--impure a", "b"] {
        run = run
            .next(Event::Arguments {
                args: written.split(' ').map(str::to_string).collect(),
            })
            .next(Event::Failed);
    }
    assert_eq!(
        run.action(),
        refused(SystemError::NoConfiguration {
            tried: strings(&["--impure a", "b"])
        })
    );
}

#[test]
fn a_search_can_fail_early() {
    let start = || switch(args(flake(&["a", "b", "c"]))).next(resolved(flake(&["a", "b", "c"])));
    let named = || {
        start().next(Event::Captured {
            output: Some("s".to_string()),
        })
    };
    assert_eq!(start().next(Event::Failed).action(), failed(Stage::QuerySystem));
    assert_eq!(
        start().next(Event::Captured { output: None }).action(),
        refused(SystemError::UnknownSystem)
    );
    assert_eq!(named().next(Event::Failed).action(), failed(Stage::QueryHostname));
    assert_eq!(
        named()
            .next(Event::Hostname {
                hostname: "h".to_string()
            })
            .action(),
        refused(SystemError::FlakeAttributeTooSpecific {
            attribute: strings(&["a", "b", "c"]),
            current_system: "s".to_string(),
            hostname: "h".to_string(),
        })
    );
}

#[test]
fn files_need_an_attribute() {
    let file = |attribute: &[&str]| Installable::File {
        path: OsText::from_text("default.nix"),
        attribute: strings(attribute),
    };
    assert_eq!(
        switch(args(file(&[]))).next(resolved(file(&[]))).action(),
        refused(SystemError::MissingAttribute)
    );
    match switch(args(file(&["a"]))).next(resolved(file(&["a"]))).action() {
        Action::Build { request } => assert_eq!(request.target, file(&["systemConfigs", "a"])),
        other => panic!("{:?}", other),
    }
}

#[test]
fn failures_say_where_they_happened() {
    let mut rebuild = args(store());
    rebuild.common.out_link = None;
    assert_eq!(switch(rebuild).next(Event::Failed).action(), failed(Stage::CreateTempDir));
    assert_eq!(switch(args(store())).next(Event::Failed).action(), failed(Stage::Resolve));
    assert_eq!(
        switch(args(store()))
            .next(resolved(Installable::Unspecified))
            .next(Event::Failed)
            .action(),
        failed(Stage::FindDefault)
    );
    assert_eq!(
        switch(args(store())).next(resolved(store())).next(Event::Failed).action(),
        failed(Stage::Build)
    );
    for (stage, context) in [
        (Stage::CreateTempDir, None),
        (Stage::Resolve, None),
        (Stage::FindDefault, None),
        (Stage::Update, None),
        (Stage::QuerySystem, Some("Failed to determine current Nix system")),
        (Stage::QueryHostname, None),
        (Stage::Build, Some("Failed to build System Manager configuration")),
        (Stage::Confirm, None),
        (Stage::Activate, Some("System Manager activation failed")),
        (Stage::OpenRepl, None),
    ] {
        assert_eq!(stage.context(), context.map(str::to_string));
    }
}

#[test]
fn events_that_are_no_reply_change_nothing() {
    let run = switch(args(store()))
        .next(Event::Done)
        .next(Event::User { uid: 0 })
        .next(Event::Confirmed { confirmed: true });
    assert_eq!(run.action(), Action::Resolve { installable: store() });
}

#[test]
fn repl_loads_what_is_selected() {
    let run = repl(expression(), None);
    assert_eq!(
        run.action(),
        Action::Resolve {
            installable: expression()
        }
    );
    let run = run.next(resolved(expression()));
    assert_eq!(
        run.action(),
        Action::ListArguments {
            installable: rooted_expression()
        }
    );
    let run = run.next(Event::Arguments {
        args: strings(&["--expr", "{}"]),
    });
    match run.action() {
        Action::OpenRepl { command } => {
            assert_eq!(command.program, OsText::from_text("nix"));
            assert_eq!(command.args, strings(&["repl", "--expr", "{}"]));
            assert!(command.show_output && command.required_env && !command.elevate);
        }
        other => panic!("{:?}", other),
    }
    assert_eq!(run.next(Event::Done).action(), success());
}

#[test]
fn repl_refuses_store_paths() {
    let run = repl(store(), None).next(resolved(store()));
    assert_eq!(run.action(), refused(SystemError::StoreInRepl));
    assert_eq!(
        SystemError::StoreInRepl.to_string(),
        "Nix doesn't support nix store installables."
    );
    let run = repl(Installable::Unspecified, None)
        .next(resolved(Installable::Unspecified))
        .next(resolved(store()));
    assert_eq!(run.action(), refused(SystemError::StoreInRepl));
}

#[test]
fn repl_searches_flakes_without_extra_arguments() {
    let run = repl(flake(&["server"]), Some("edge"))
        .next(resolved(flake(&["server"])))
        .next(Event::Captured {
            output: Some("x86_64-linux".to_string()),
        });
    assert_eq!(
        run.action(),
        Action::QueryHostname {
            hostname: Some("edge".to_string())
        }
    );
    let run = run
        .next(Event::Hostname {
            hostname: "edge".to_string(),
        })
        .next(Event::Arguments {
            args: strings(&["a"]),
        });
    match run.action() {
        Action::Evaluate { command } => assert_eq!(command.args, strings(&["eval", "a"])),
        other => panic!("{:?}", other),
    }
    let run = run.next(Event::Done);
    assert_eq!(
        run.action(),
        Action::ListArguments {
            installable: flake(&["systemConfigs", "x86_64-linux", "server"])
        }
    );
    let run = run.next(Event::Arguments {
        args: strings(&["a"]),
    });
    assert_eq!(run.next(Event::Failed).action(), failed(Stage::OpenRepl));
}

#[test]
fn the_longest_run_takes_every_reply() {
    let mut rebuild = args(flake(&[]));
    rebuild.common.out_link = None;
    rebuild.common.ask = true;
    rebuild.common.diff = DiffType::Always;
    rebuild.update_args.update_all = true;
    let mut run = switch(rebuild);
    let mut replies = 0;
    loop {
        let reply = match run.action() {
            Action::CreateTempDir { .. } => Event::Directory {
                path: OsText::from_text("/tmp/d"),
            },
            Action::Resolve { .. } => resolved(Installable::Unspecified),
            Action::FindDefault => resolved(flake(&[])),
            Action::QuerySystem { .. } => Event::Captured {
                output: Some("s".to_string()),
            },
            Action::QueryHostname { .. } => Event::Hostname {
                hostname: "h".to_string(),
            },
            Action::ListArguments { installable } => Event::Arguments {
                args: match installable {
                    Installable::Flake { attribute, .. } => attribute,
                    other => panic!("{:?}", other),
                },
            },
            Action::Evaluate { command } => {
                if command.args == strings(&["eval", "systemConfigs", "default"]) {
                    Event::Done
                } else {
                    Event::Failed
                }
            }
            Action::CheckPath { .. } => Event::Exists { exists: true },
            Action::Confirm { .. } => Event::Confirmed { confirmed: true },
            Action::QueryUser => Event::User { uid: 1 },
            Action::Finish { outcome } => {
                assert_eq!(outcome, Outcome::Success);
                break;
            }
            _ => Event::Done,
        };
        run = run.next(reply);
        replies += 1;
        assert!(replies <= 21);
    }
    assert_eq!(replies, 20);
}

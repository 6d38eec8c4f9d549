use nh_system::attribute::{
    flake_attr_candidates, normalize_nonflake_attribute, DEFAULT_PROFILE, SYSTEM_CONFIGS_ATTR,
};
use nh_system::error::SystemError;
use nh_system::installable::Installable;
use nh_system::search::resolve_flake_candidate;

fn strings(parts: &[&str]) -> Vec<String> {
    parts.iter().map(|part| part.to_string()).collect()
}

fn to_args(installable: &Installable) -> Vec<String> {
    match installable {
        Installable::Flake { reference, attribute } => {
            vec![format!("{}#{}", reference, attribute.join("."))]
        }
        other => panic!("Expected flake installable, got {:?}", other),
    }
}

#[test]
fn test_flake_attr_candidates_for_default_resolution() {
    let candidates = flake_attr_candidates(vec![], "x86_64-linux", "edge").unwrap();

    assert_eq!(
        candidates,
        vec![
            vec![
                SYSTEM_CONFIGS_ATTR.to_string(),
                "x86_64-linux".to_string(),
                "edge".to_string()
            ],
            vec![SYSTEM_CONFIGS_ATTR.to_string(), "edge".to_string()],
            vec![
                SYSTEM_CONFIGS_ATTR.to_string(),
                "x86_64-linux".to_string(),
                DEFAULT_PROFILE.to_string()
            ],
            vec![SYSTEM_CONFIGS_ATTR.to_string(), DEFAULT_PROFILE.to_string()],
        ]
    );
}

#[test]
fn test_flake_attr_candidates_for_named_configuration() {
    let candidates =
        flake_attr_candidates(vec!["server".to_string()], "x86_64-linux", "edge").unwrap();

    assert_eq!(
        candidates,
        vec![
            vec![
                SYSTEM_CONFIGS_ATTR.to_string(),
                "x86_64-linux".to_string(),
                "server".to_string()
            ],
            vec![SYSTEM_CONFIGS_ATTR.to_string(), "server".to_string()],
        ]
    );
}

#[test]
fn test_flake_attr_candidates_for_explicit_system_path() {
    let candidates = flake_attr_candidates(
        vec!["aarch64-linux".to_string(), "server".to_string()],
        "x86_64-linux",
        "edge",
    )
    .unwrap();

    assert_eq!(
        candidates,
        vec![vec![
            SYSTEM_CONFIGS_ATTR.to_string(),
            "aarch64-linux".to_string(),
            "server".to_string(),
        ]]
    );
}

#[test]
fn test_flake_attr_candidates_rejects_too_specific_paths() {
    let err = flake_attr_candidates(
        vec![
            SYSTEM_CONFIGS_ATTR.to_string(),
            "x86_64-linux".to_string(),
            "server".to_string(),
            "extra".to_string(),
        ],
        "x86_64-linux",
        "edge",
    )
    .unwrap_err();

    assert!(err.to_string().contains("Attribute path is too specific"));
}

#[test]
fn test_resolve_flake_candidate_uses_default_fallback() {
    let reference = "/tmp/system-manager-fixture".to_string();
    let candidates = flake_attr_candidates(vec![], "x86_64-linux", "missing-host").unwrap();

    let resolved = resolve_flake_candidate(reference.clone(), candidates, to_args, |installable| {
        Ok(matches!(
            installable,
            Installable::Flake { attribute, .. }
                if attribute
                    == &vec![SYSTEM_CONFIGS_ATTR.to_string(), DEFAULT_PROFILE.to_string()]
        ))
    })
    .expect("candidate resolution should fall back to systemConfigs.default");

    match resolved {
        Installable::Flake {
            reference: resolved_reference,
            attribute,
        } => {
            assert_eq!(resolved_reference, reference);
            assert_eq!(
                attribute,
                vec![SYSTEM_CONFIGS_ATTR.to_string(), DEFAULT_PROFILE.to_string()]
            );
        }
        other => panic!("Expected flake installable, got {other:?}"),
    }
}

#[test]
fn root_alone_names_nothing() {
    assert_eq!(
        flake_attr_candidates(strings(&["systemConfigs"]), "x86_64-linux", "edge").unwrap(),
        flake_attr_candidates(vec![], "x86_64-linux", "edge").unwrap()
    );
}

#[test]
fn explicit_paths_are_taken_as_they_are() {
    for path in [
        strings(&["systemConfigs", "server"]),
        strings(&["systemConfigs", "aarch64-linux", "server"]),
    ] {
        assert_eq!(
            flake_attr_candidates(path.clone(), "x86_64-linux", "edge").unwrap(),
            vec![path]
        );
    }
}

#[test]
fn candidates_stand_for_themselves() {
    for attribute in [vec![], strings(&["server"]), strings(&["aarch64-linux", "server"])] {
        for path in flake_attr_candidates(attribute, "x86_64-linux", "edge").unwrap() {
            assert_eq!(
                flake_attr_candidates(path.clone(), "riscv64-linux", "other").unwrap(),
                vec![path]
            );
        }
    }
}

#[test]
fn three_components_need_the_root() {
    let err = flake_attr_candidates(strings(&["a", "b", "c"]), "x86_64-linux", "edge").unwrap_err();
    assert_eq!(
        err,
        SystemError::FlakeAttributeTooSpecific {
            attribute: strings(&["a", "b", "c"]),
            current_system: "x86_64-linux".to_string(),
            hostname: "edge".to_string(),
        }
    );
    assert_eq!(
        err.to_string(),
        "Attribute path is too specific: a.b.c. Please either:\n  1. Use the flake reference \
         without attributes (e.g., '.')\n  2. Specify only the configuration name (e.g., \
         '.#edge')\n  3. Use an explicit systemConfigs path (e.g., \
         '.#systemConfigs.x86_64-linux.edge')"
    );
}

#[test]
fn nonflake_attributes_are_rooted() {
    let mut attribute = strings(&["server"]);
    assert_eq!(normalize_nonflake_attribute(&mut attribute), Ok(()));
    assert_eq!(attribute, strings(&["systemConfigs", "server"]));
    assert_eq!(normalize_nonflake_attribute(&mut attribute), Ok(()));
    assert_eq!(attribute, strings(&["systemConfigs", "server"]));

    let mut attribute = strings(&["x86_64-linux", "server"]);
    assert_eq!(normalize_nonflake_attribute(&mut attribute), Ok(()));
    assert_eq!(attribute, strings(&["systemConfigs", "x86_64-linux", "server"]));

    let mut attribute = strings(&["systemConfigs"]);
    assert_eq!(normalize_nonflake_attribute(&mut attribute), Ok(()));
    assert_eq!(attribute, strings(&["systemConfigs"]));
}

#[test]
fn nonflake_attributes_are_required() {
    let mut attribute = vec![];
    let err = normalize_nonflake_attribute(&mut attribute).unwrap_err();
    assert_eq!(err, SystemError::MissingAttribute);
    assert!(attribute.is_empty());
    assert_eq!(
        err.to_string(),
        "System Manager requires an explicit attribute path when using --file or --expr"
    );
}

#[test]
fn nonflake_attributes_can_be_too_long() {
    let mut attribute = strings(&["a", "b", "c"]);
    let err = normalize_nonflake_attribute(&mut attribute).unwrap_err();
    assert_eq!(attribute, strings(&["systemConfigs", "a", "b", "c"]));
    assert_eq!(err, SystemError::AttributeTooSpecific { attribute });
    assert_eq!(
        err.to_string(),
        "Attribute path is too specific: systemConfigs.a.b.c. Please specify only the \
         configuration name (e.g., '.#default') or the explicit systemConfigs path."
    );
}

#[test]
fn the_first_candidate_that_exists_is_taken() {
    let mut probed = 0;
    let resolved = resolve_flake_candidate(
        ".".to_string(),
        vec![strings(&["a"]), strings(&["b"]), strings(&["c"])],
        to_args,
        |installable| {
            probed += 1;
            Ok(to_args(installable) != vec![".#a".to_string()])
        },
    );
    assert_eq!(
        resolved,
        Ok(Installable::Flake {
            reference: ".".to_string(),
            attribute: strings(&["b"]),
        })
    );
    assert_eq!(probed, 2);
}

#[test]
fn candidates_that_were_tried_are_listed() {
    let err = resolve_flake_candidate(
        ".".to_string(),
        vec![strings(&["a"]), strings(&["b"])],
        |installable| {
            let mut args = vec!["--impure".to_string()];
            args.append(&mut to_args(installable));
            args
        },
        |_| Ok(false),
    )
    .unwrap_err();
    assert_eq!(
        err,
        SystemError::NoConfiguration {
            tried: strings(&["--impure .#a", "--impure .#b"]),
        }
    );
    assert_eq!(
        err.to_string(),
        "Couldn't find system-manager configuration automatically, tried: --impure .#a, \
         --impure .#b"
    );
}

#[test]
fn errors_of_a_probe_end_the_search() {
    let err = resolve_flake_candidate(
        ".".to_string(),
        vec![strings(&["a"]), strings(&["b"])],
        to_args,
        |_| Err(SystemError::UnknownSystem),
    )
    .unwrap_err();
    assert_eq!(err, SystemError::UnknownSystem);
}

use nh_system::error::SystemError;
use nh_system::os_text::OsText;
use nh_system::select::get_current_system;
use nh_system::text::join;

fn system(output: &str) -> Result<String, SystemError> {
    get_current_system(&Some(output.to_string()))
}

#[test]
fn system_is_trimmed() {
    assert_eq!(system("x86_64-linux\n"), Ok("x86_64-linux".to_string()));
    assert_eq!(system(" \t a b \r\n"), Ok("a b".to_string()));
    assert_eq!(system("aarch64-linux"), Ok("aarch64-linux".to_string()));
}

#[test]
fn system_must_be_named() {
    assert_eq!(get_current_system(&None), Err(SystemError::UnknownSystem));
    assert_eq!(system(""), Err(SystemError::UnknownSystem));
    assert_eq!(system(" \n\t "), Err(SystemError::UnknownSystem));
    assert_eq!(
        SystemError::UnknownSystem.to_string(),
        "Couldn't determine current Nix system"
    );
}

#[test]
fn exactly_white_space_is_trimmed() {
    for code in 0..=0x10ffff {
        if let Some(c) = char::from_u32(code) {
            let white = matches!(
                code,
                0x9..=0xd
                    | 0x20
                    | 0x85
                    | 0xa0
                    | 0x1680
                    | 0x2000..=0x200a
                    | 0x2028
                    | 0x2029
                    | 0x202f
                    | 0x205f
                    | 0x3000
            );
            let text = format!("{}x{}", c, c);
            let expected = if white { "x".to_string() } else { text.clone() };
            assert_eq!(system(&text), Ok(expected));
        }
    }
}

#[test]
fn parts_are_joined() {
    let parts = |texts: &[&str]| texts.iter().map(|text| text.to_string()).collect::<Vec<_>>();
    assert_eq!(join(&parts(&[]), "."), "");
    assert_eq!(join(&parts(&["a"]), "."), "a");
    assert_eq!(join(&parts(&["a", "", "c"]), ", "), "a, , c");
}

#[test]
fn paths_are_joined_as_the_standard_library_joins_them() {
    for base in ["", "/", "a", "a/", "/tmp/nh-system", "/tmp/\u{e4}"] {
        for path in ["", "result", "bin/activate", "/nix", "/"] {
            let expected = std::path::PathBuf::from(base).join(path);
            assert_eq!(
                OsText::from_text(base).join(path),
                OsText::from_text(expected.to_str().unwrap()),
                "{} {}",
                base,
                path
            );
        }
    }
}

#[test]
fn paths_need_not_be_text() {
    let base = OsText { bytes: vec![0xff, 0xfe] };
    assert_eq!(base.join("x").bytes, vec![0xff, 0xfe, b'/', b'x']);
}

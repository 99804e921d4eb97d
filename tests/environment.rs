use build_script::{Cargo, Directive, DirectiveLog, EnvKey, EnvValue, Environment, LinkTarget, LookupError, ValueKind};

#[test]
fn unset_key_is_not_present() {
    let env = Environment::new();
    assert_eq!(Cargo::pkg_name(&env), Err(LookupError::NotPresent));
    assert!(matches!(Cargo::out_dir(&env), Err(LookupError::NotPresent)));
}

#[test]
fn empty_value_is_still_present() {
    let mut env = Environment::new();
    env.set("CARGO_PKG_DESCRIPTION", "");
    assert_eq!(Cargo::pkg_description(&env), Ok(String::new()));
    env.remove("CARGO_PKG_DESCRIPTION");
    assert_eq!(Cargo::pkg_description(&env), Err(LookupError::NotPresent));
}

#[test]
fn value_not_unicode_is_invalid_encoding() {
    let mut env = Environment::new();
    env.set_not_unicode("CARGO_PKG_VERSION");
    assert_eq!(Cargo::pkg_version(&env), Err(LookupError::InvalidEncoding));
    assert_eq!(env.var("CARGO_PKG_VERSION"), Err(LookupError::InvalidEncoding));
}

#[test]
fn later_set_replaces_earlier() {
    let mut env = Environment::new();
    env.set("OUT_DIR", "/a");
    env.set("OUT_DIR", "/b");
    assert_eq!(Cargo::out_dir(&env).unwrap().as_str(), "/b");
    env.set_not_unicode("OUT_DIR");
    env.set("OUT_DIR", "/c");
    assert_eq!(Cargo::out_dir(&env).unwrap().into_text(), "/c");
}

#[test]
fn primary_package_is_presence() {
    let mut env = Environment::new();
    assert!(!Cargo::is_primary_package(&env));
    env.set("CARGO_PRIMARY_PACKAGE", "");
    assert!(Cargo::is_primary_package(&env));
    env.set_not_unicode("CARGO_PRIMARY_PACKAGE");
    assert!(Cargo::is_primary_package(&env));
    assert_eq!(env.var("CARGO_PRIMARY_PACKAGE"), Err(LookupError::InvalidEncoding));
    env.remove("CARGO_PRIMARY_PACKAGE");
    assert!(!Cargo::is_primary_package(&env));
}

#[test]
fn binary_path_uses_exact_name() {
    let mut env = Environment::new();
    env.set("CARGO_BIN_EXE_FOO", "/bin/FOO");
    assert!(matches!(Cargo::binary_executable_path(&env, "foo"), Err(LookupError::NotPresent)));
    env.set("CARGO_BIN_EXE_foo", "/bin/foo");
    assert_eq!(Cargo::binary_executable_path(&env, "foo").unwrap().as_str(), "/bin/foo");
    assert_eq!(Cargo::binary_executable_path(&env, "FOO").unwrap().as_str(), "/bin/FOO");
    env.set_not_unicode("CARGO_BIN_EXE_bar");
    assert!(matches!(Cargo::binary_executable_path(&env, "bar"), Err(LookupError::InvalidEncoding)));
}

#[test]
fn typed_read_by_key() {
    let mut env = Environment::new();
    env.set("CARGO_MANIFEST_DIR", "/pkg");
    env.set("CARGO_CRATE_NAME", "my_crate");
    match Cargo::read(&env, EnvKey::ManifestDir) {
        Ok(EnvValue::Path(p)) => assert_eq!(p.as_str(), "/pkg"),
        other => panic!("unexpected {other:?}"),
    }
    match Cargo::read(&env, EnvKey::CrateName) {
        Ok(EnvValue::Text(t)) => assert_eq!(t, "my_crate"),
        other => panic!("unexpected {other:?}"),
    }
    assert!(matches!(Cargo::read(&env, EnvKey::BinName), Err(LookupError::NotPresent)));
    assert_eq!(EnvKey::OutDir.name(), "OUT_DIR");
    assert_eq!(EnvKey::BinaryPath.name(), "CARGO");
    assert_eq!(EnvKey::OutDir.kind(), ValueKind::Path);
    assert_eq!(EnvKey::PkgAuthors.kind(), ValueKind::Text);
}

#[test]
fn every_getter_reads_its_variable() {
    let mut env = Environment::new();
    let texts: Vec<(&str, fn(&Environment) -> Result<String, LookupError>)> = vec![
        ("CARGO_PKG_VERSION", Cargo::pkg_version),
        ("CARGO_PKG_VERSION_MAJOR", Cargo::pkg_version_major),
        ("CARGO_PKG_VERSION_MINOR", Cargo::pkg_version_minor),
        ("CARGO_PKG_VERSION_PATCH", Cargo::pkg_version_patch),
        ("CARGO_PKG_VERSION_PRE", Cargo::pkg_version_pre),
        ("CARGO_PKG_AUTHORS", Cargo::pkg_authors),
        ("CARGO_PKG_NAME", Cargo::pkg_name),
        ("CARGO_PKG_DESCRIPTION", Cargo::pkg_description),
        ("CARGO_PKG_HOMEPAGE", Cargo::pkg_homepage),
        ("CARGO_PKG_REPOSITORY", Cargo::pkg_repository),
        ("CARGO_PKG_LICENSE", Cargo::pkg_license),
        ("CARGO_PKG_RUST_VERSION", Cargo::pkg_rust_version),
        ("CARGO_CRATE_NAME", Cargo::crate_name),
        ("CARGO_BIN_NAME", Cargo::bin_name),
    ];
    for (name, _) in &texts {
        env.set(name, &format!("v-{name}"));
    }
    for (name, getter) in &texts {
        assert_eq!(getter(&env), Ok(format!("v-{name}")));
    }
    let paths: Vec<(&str, fn(&Environment) -> Result<build_script::BuildPath, LookupError>)> = vec![
        ("CARGO", Cargo::binary_path),
        ("CARGO_MANIFEST_DIR", Cargo::manifest_dir),
        ("CARGO_MANIFEST_PATH", Cargo::manifest_path),
        ("CARGO_PKG_LICENSE_FILE", Cargo::pkg_license_file),
        ("CARGO_PKG_README", Cargo::pkg_readme),
        ("OUT_DIR", Cargo::out_dir),
        ("CARGO_TARGET_TMPDIR", Cargo::target_tmpdir),
        ("CARGO_RUSTC_CURRENT_DIR", Cargo::rustc_current_dir),
    ];
    for (name, getter) in &paths {
        assert!(matches!(getter(&env), Err(LookupError::NotPresent)));
        env.set(name, &format!("/p/{name}"));
        assert_eq!(getter(&env).unwrap().as_str(), format!("/p/{name}"));
    }
}

#[test]
fn end_to_end_scenario() {
    let mut env = Environment::new();
    env.set("CARGO_PKG_NAME", "demo");
    assert_eq!(Cargo::pkg_name(&env), Ok("demo".to_string()));
    let mut log = DirectiveLog::new();
    log.emit(&Directive::Cfg { key: "feature_x".to_string(), value: None });
    log.emit(&Directive::LinkArg { flag: "-lm".to_string(), target: LinkTarget::Bins });
    let text = log.text();
    let lines: Vec<&str> = text.lines().collect();
    assert_eq!(lines, vec!["cargo::rustc-cfg=feature_x", "cargo::rustc-link-arg-bins=-lm"]);
}

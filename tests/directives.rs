use build_script::{Directive, DirectiveLog, LinkSearchKind, LinkTarget, Rustc, Cargo};

fn s(t: &str) -> String {
    t.to_string()
}

#[test]
fn rerun_lines() {
    assert_eq!(Cargo::rerun_if_changed("src/a.c"), "cargo::rerun-if-changed=src/a.c");
    assert_eq!(Cargo::rerun_if_changed(""), "cargo::rerun-if-changed=");
    assert_eq!(Cargo::rerun_if_env_changed("CC"), "cargo::rerun-if-env-changed=CC");
}

#[test]
fn warning_and_metadata_lines() {
    assert_eq!(Cargo::warning("a=b c"), "cargo::warning=a=b c");
    assert_eq!(Cargo::warning(""), "cargo::warning=");
    assert_eq!(Cargo::metadata("k", "v"), "cargo::metadata=k=v");
    assert_eq!(Cargo::metadata("k=1", "=v"), "cargo::metadata=k=1==v");
    assert_eq!(Cargo::metadata("", ""), "cargo::metadata==");
}

#[test]
fn link_arg_lines_by_target() {
    assert_eq!(Rustc::link_arg("-lm"), "cargo::rustc-link-arg=-lm");
    assert_eq!(Rustc::link_arg_bin("tool", "-lm"), "cargo::rustc-link-arg-bin=tool=-lm");
    assert_eq!(Rustc::link_arg_bins("-lm"), "cargo::rustc-link-arg-bins=-lm");
    assert_eq!(Rustc::link_arg_tests("-lm"), "cargo::rustc-link-arg-tests=-lm");
    assert_eq!(Rustc::link_arg_examples("-lm"), "cargo::rustc-link-arg-examples=-lm");
    assert_eq!(Rustc::cdylib_link_arg("-lm"), "cargo::rustc-cdylib-link-arg=-lm");
    assert_eq!(Rustc::link_arg("-Wl,--x=y"), "cargo::rustc-link-arg=-Wl,--x=y");
    assert_eq!(Rustc::link_arg(""), "cargo::rustc-link-arg=");
}

#[test]
fn link_lib_flags_check_cfg_env_lines() {
    assert_eq!(Rustc::link_lib("static=foo"), "cargo::rustc-link-lib=static=foo");
    assert_eq!(Rustc::flags("-l dylib=foo"), "cargo::rustc-flags=-l dylib=foo");
    assert_eq!(Rustc::check_cfg("cfg(has_foo)"), "cargo::rustc-check-cfg=cfg(has_foo)");
    assert_eq!(Rustc::env("VERSION", "1.0"), "cargo::rustc-env=VERSION=1.0");
    assert_eq!(Rustc::env("A", ""), "cargo::rustc-env=A=");
    assert_eq!(Rustc::env("A", "x=y"), "cargo::rustc-env=A=x=y");
}

#[test]
fn link_search_with_each_kind() {
    let cases = [
        (LinkSearchKind::Dependency, "dependency"),
        (LinkSearchKind::Crate, "crate"),
        (LinkSearchKind::Native, "native"),
        (LinkSearchKind::Framework, "framework"),
        (LinkSearchKind::All, "all"),
    ];
    for (kind, word) in cases {
        assert_eq!(kind.as_str(), word);
        assert_eq!(
            Rustc::link_search("/usr/lib", Some(kind)),
            format!("cargo::rustc-link-search={word}=/usr/lib")
        );
    }
}

#[test]
fn link_search_without_kind_keeps_legacy_prefix() {
    assert_eq!(Rustc::link_search("/usr/lib", None), "carg::rustc-link-search=/usr/lib");
    assert!(!Rustc::link_search("/usr/lib", None).starts_with("cargo::"));
    assert!(Rustc::link_search("/usr/lib", Some(LinkSearchKind::All)).starts_with("cargo::"));
}

#[test]
fn cfg_quotes_only_a_value() {
    assert_eq!(Rustc::cfg("feature_x", None), "cargo::rustc-cfg=feature_x");
    assert!(!Rustc::cfg("feature_x", None).contains('"'));
    assert_eq!(Rustc::cfg("kind", Some("fast")), "cargo::rustc-cfg=kind=\"fast\"");
    assert_eq!(Rustc::cfg("kind", Some("")), "cargo::rustc-cfg=kind=\"\"");
    assert_eq!(Rustc::cfg("kind", Some("a\"b")), "cargo::rustc-cfg=kind=\"a\"b\"");
}

#[test]
fn every_directive_encodes_to_its_line() {
    let cases = vec![
        (Directive::RerunIfChanged { path: s("build.rs") }, "cargo::rerun-if-changed=build.rs"),
        (Directive::RerunIfEnvChanged { var: s("CC") }, "cargo::rerun-if-env-changed=CC"),
        (Directive::Warning { message: s("") }, "cargo::warning="),
        (Directive::Metadata { key: s("a"), value: s("b=c") }, "cargo::metadata=a=b=c"),
        (
            Directive::LinkArg { flag: s("-x"), target: LinkTarget::Unscoped },
            "cargo::rustc-link-arg=-x",
        ),
        (
            Directive::LinkArg { flag: s("-x"), target: LinkTarget::Bin(s("app")) },
            "cargo::rustc-link-arg-bin=app=-x",
        ),
        (
            Directive::LinkArg { flag: s("-x"), target: LinkTarget::Bins },
            "cargo::rustc-link-arg-bins=-x",
        ),
        (
            Directive::LinkArg { flag: s("-x"), target: LinkTarget::Tests },
            "cargo::rustc-link-arg-tests=-x",
        ),
        (
            Directive::LinkArg { flag: s("-x"), target: LinkTarget::Examples },
            "cargo::rustc-link-arg-examples=-x",
        ),
        (
            Directive::LinkArg { flag: s("-x"), target: LinkTarget::Cdylib },
            "cargo::rustc-cdylib-link-arg=-x",
        ),
        (Directive::LinkLib { lib: s("z") }, "cargo::rustc-link-lib=z"),
        (
            Directive::LinkSearch { path: s("/p"), kind: Some(LinkSearchKind::Native) },
            "cargo::rustc-link-search=native=/p",
        ),
        (Directive::LinkSearch { path: s("/p"), kind: None }, "carg::rustc-link-search=/p"),
        (Directive::Flags { flags: s("-l z") }, "cargo::rustc-flags=-l z"),
        (Directive::Cfg { key: s("k"), value: None }, "cargo::rustc-cfg=k"),
        (Directive::Cfg { key: s("k"), value: Some(s("v")) }, "cargo::rustc-cfg=k=\"v\""),
        (Directive::CheckCfg { cfg: s("cfg(k)") }, "cargo::rustc-check-cfg=cfg(k)"),
        (Directive::Env { var: s("A"), value: s("=") }, "cargo::rustc-env=A=="),
    ];
    for (d, expected) in cases {
        let line = d.line();
        assert_eq!(line, expected);
        assert!(!line.contains('\n'));
    }
}

#[test]
fn log_keeps_call_order_one_line_each() {
    let mut log = DirectiveLog::new();
    log.emit(&Directive::Cfg { key: s("feature_x"), value: None });
    log.emit(&Directive::LinkArg { flag: s("-lm"), target: LinkTarget::Bins });
    log.push_line(Rustc::link_lib("z"));
    assert_eq!(log.lines().len(), 3);
    assert_eq!(
        log.text(),
        "cargo::rustc-cfg=feature_x\ncargo::rustc-link-arg-bins=-lm\ncargo::rustc-link-lib=z\n"
    );
    assert_eq!(DirectiveLog::new().text(), "");
}

#[test]
fn log_with_corrected_search_prefix() {
    let mut log = DirectiveLog::with_search_prefix("cargo::");
    log.emit(&Directive::LinkSearch { path: s("/p"), kind: None });
    assert_eq!(log.text(), "cargo::rustc-link-search=/p\n");
    let mut legacy = DirectiveLog::new();
    legacy.emit(&Directive::LinkSearch { path: s("/p"), kind: None });
    assert_eq!(legacy.text(), "carg::rustc-link-search=/p\n");
    assert_eq!(Directive::LinkSearch { path: s("/p"), kind: None }.line_with("x::"), "x::rustc-link-search=/p");
}

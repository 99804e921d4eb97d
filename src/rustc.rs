use vstd::prelude::*;

use crate::directive::{
    cfg_text, join2, join4, legacy_search_prefix, link_search_line, link_search_text,
    LinkSearchKind,
};

verus! {

/// The lines by which a build script passes instructions for the Rust
/// compiler to the build orchestrator. Each function returns the line,
/// without its terminator.
pub struct Rustc {
    _private: (),
}

impl Rustc {
    /// Passes a single linker argument to the Rust compiler.
    pub fn link_arg(flag: &str) -> (r: String)
        ensures
            r@ == "cargo::rustc-link-arg="@ + flag@,
    {
        join2("cargo::rustc-link-arg=", flag)
    }

    /// Passes a linker argument for a specific binary target.
    pub fn link_arg_bin(bin: &str, flag: &str) -> (r: String)
        ensures
            r@ == "cargo::rustc-link-arg-bin="@ + bin@ + "="@ + flag@,
    {
        join4("cargo::rustc-link-arg-bin=", bin, "=", flag)
    }

    /// Passes a linker argument for all binary targets.
    pub fn link_arg_bins(flag: &str) -> (r: String)
        ensures
            r@ == "cargo::rustc-link-arg-bins="@ + flag@,
    {
        join2("cargo::rustc-link-arg-bins=", flag)
    }

    /// Links a library with the specified name.
    pub fn link_lib(lib: &str) -> (r: String)
        ensures
            r@ == "cargo::rustc-link-lib="@ + lib@,
    {
        join2("cargo::rustc-link-lib=", lib)
    }

    /// Passes a linker argument specifically for test builds.
    pub fn link_arg_tests(flag: &str) -> (r: String)
        ensures
            r@ == "cargo::rustc-link-arg-tests="@ + flag@,
    {
        join2("cargo::rustc-link-arg-tests=", flag)
    }

    /// Passes a linker argument specifically for example builds.
    pub fn link_arg_examples(flag: &str) -> (r: String)
        ensures
            r@ == "cargo::rustc-link-arg-examples="@ + flag@,
    {
        join2("cargo::rustc-link-arg-examples=", flag)
    }

    /// Specifies a directory for the Rust compiler to search for libraries.
    /// Without a kind the line keeps the legacy `carg::` prefix.
    pub fn link_search(path: &str, kind: Option<LinkSearchKind>) -> (r: String)
        ensures
            r@ == link_search_line(path@, kind, legacy_search_prefix()),
            kind is Some ==> r@ == "cargo::rustc-link-search="@ + kind->0.spec_text() + "="@
                + path@,
            kind is None ==> r@ == "carg::rustc-link-search="@ + path@,
    {
        proof {
            reveal_strlit("carg::");
            reveal_strlit("rustc-link-search=");
            reveal_strlit("carg::rustc-link-search=");
            assert("carg::"@ + "rustc-link-search="@ =~= "carg::rustc-link-search="@);
        }
        link_search_text(path, kind, "carg::")
    }

    /// Passes additional compiler flags to the Rust compiler.
    pub fn flags(flags: &str) -> (r: String)
        ensures
            r@ == "cargo::rustc-flags="@ + flags@,
    {
        join2("cargo::rustc-flags=", flags)
    }

    /// Configures a conditional compilation flag with an optional value,
    /// which is written in double quotes.
    pub fn cfg(key: &str, value: Option<&str>) -> (r: String)
        ensures
            value is Some ==> r@ == "cargo::rustc-cfg="@ + key@ + "=\""@ + value->0@ + "\""@,
            value is None ==> r@ == "cargo::rustc-cfg="@ + key@,
    {
        cfg_text(key, value)
    }

    /// Declares a cfg expression that the compiler should expect.
    pub fn check_cfg(cfg: &str) -> (r: String)
        ensures
            r@ == "cargo::rustc-check-cfg="@ + cfg@,
    {
        join2("cargo::rustc-check-cfg=", cfg)
    }

    /// Sets an environment variable for the compilation of the package.
    pub fn env(var: &str, value: &str) -> (r: String)
        ensures
            r@ == "cargo::rustc-env="@ + var@ + "="@ + value@,
    {
        join4("cargo::rustc-env=", var, "=", value)
    }

    /// Passes a linker argument specifically for `cdylib` builds.
    pub fn cdylib_link_arg(flag: &str) -> (r: String)
        ensures
            r@ == "cargo::rustc-cdylib-link-arg="@ + flag@,
    {
        join2("cargo::rustc-cdylib-link-arg=", flag)
    }
}

} // verus!

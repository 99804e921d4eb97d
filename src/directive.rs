use vstd::prelude::*;
use vstd::string::StringExecFns;

verus! {

/// The different kinds of link search paths used by the Rust compiler.
#[derive(Clone, Copy, Debug, PartialEq, Eq, Structural)]
pub enum LinkSearchKind {
    /// Only search for transitive dependencies in this directory
    Dependency,
    /// Only search for this crate's direct dependencies in this directory
    Crate,
    /// Only search for native libraries in this directory
    Native,
    /// Only search for macOS frameworks in this directory
    Framework,
    /// Search for all library kinds in this directory, except frameworks.
    All,
}

impl LinkSearchKind {
    /// The word that names this kind on a directive line.
    pub open spec fn spec_text(self) -> Seq<char> {
        match self {
            LinkSearchKind::Dependency => "dependency"@,
            LinkSearchKind::Crate => "crate"@,
            LinkSearchKind::Native => "native"@,
            LinkSearchKind::Framework => "framework"@,
            LinkSearchKind::All => "all"@,
        }
    }

    /// The word that names this kind on a directive line.
    pub fn as_str(&self) -> (r: &'static str)
        ensures
            r@ == self.spec_text(),
    {
        match self {
            LinkSearchKind::Dependency => "dependency",
            LinkSearchKind::Crate => "crate",
            LinkSearchKind::Native => "native",
            LinkSearchKind::Framework => "framework",
            LinkSearchKind::All => "all",
        }
    }
}


/// Which compiler invocations receive a linker argument.
#[derive(Clone, Debug, PartialEq, Eq)]
pub enum LinkTarget {
    /// Every target of the package.
    Unscoped,
    /// The binary target with this name.
    Bin(String),
    /// All binary targets.
    Bins,
    /// All test targets.
    Tests,
    /// All example targets.
    Examples,
    /// The `cdylib` target.
    Cdylib,
}

/// One instruction to the build orchestrator.
#[allow(inconsistent_fields)]
#[derive(Clone, Debug, PartialEq, Eq)]
pub enum Directive {
    /// Run the build script again when this file changes.
    RerunIfChanged { path: String },
    /// Run the build script again when this environment variable changes.
    RerunIfEnvChanged { var: String },
    /// Show a warning to the user.
    Warning { message: String },
    /// A key/value pair that dependent packages can read.
    Metadata { key: String, value: String },
    /// A linker argument for the targets that `target` selects.
    LinkArg { flag: String, target: LinkTarget },
    /// Link a library.
    LinkLib { lib: String },
    /// A directory where the linker looks for libraries.
    LinkSearch { path: String, kind: Option<LinkSearchKind> },
    /// Raw compiler flags.
    Flags { flags: String },
    /// A conditional-compilation flag, with an optional value.
    Cfg { key: String, value: Option<String> },
    /// A cfg expression that the compiler should accept as expected.
    CheckCfg { cfg: String },
    /// An environment variable set for the compilation of the package.
    Env { var: String, value: String },
}

/// The prefix that the orchestrator has always accepted on a link-search line
/// without a kind. It differs from the prefix of every other line; it is kept
/// as it is for compatibility with the orchestrator's parser.
pub open spec fn legacy_search_prefix() -> Seq<char> {
    "carg::"@
}

/// The line for a linker argument, by target.
pub open spec fn link_arg_line(flag: Seq<char>, target: LinkTarget) -> Seq<char> {
    match target {
        LinkTarget::Unscoped => "cargo::rustc-link-arg="@ + flag,
        LinkTarget::Bin(bin) => "cargo::rustc-link-arg-bin="@ + bin@ + "="@ + flag,
        LinkTarget::Bins => "cargo::rustc-link-arg-bins="@ + flag,
        LinkTarget::Tests => "cargo::rustc-link-arg-tests="@ + flag,
        LinkTarget::Examples => "cargo::rustc-link-arg-examples="@ + flag,
        LinkTarget::Cdylib => "cargo::rustc-cdylib-link-arg="@ + flag,
    }
}

/// The line for a link-search directory; `prefix` is the one used when no
/// kind is given.
pub open spec fn link_search_line(
    path: Seq<char>,
    kind: Option<LinkSearchKind>,
    prefix: Seq<char>,
) -> Seq<char> {
    match kind {
        Some(k) => "cargo::rustc-link-search="@ + k.spec_text() + "="@ + path,
        None => prefix + "rustc-link-search="@ + path,
    }
}

/// The line for a cfg flag: the value, if any, stands in double quotes.
pub open spec fn cfg_line(key: Seq<char>, value: Option<Seq<char>>) -> Seq<char> {
    match value {
        Some(v) => "cargo::rustc-cfg="@ + key + "=\""@ + v + "\""@,
        None => "cargo::rustc-cfg="@ + key,
    }
}

impl Directive {
    /// The text of the line that encodes this directive, without the line
    /// terminator; `prefix` is the one for a link-search line without a kind.
    pub open spec fn spec_line_with(self, prefix: Seq<char>) -> Seq<char> {
        match self {
            Directive::RerunIfChanged { path } => "cargo::rerun-if-changed="@ + path@,
            Directive::RerunIfEnvChanged { var } => "cargo::rerun-if-env-changed="@ + var@,
            Directive::Warning { message } => "cargo::warning="@ + message@,
            Directive::Metadata { key, value } => "cargo::metadata="@ + key@ + "="@ + value@,
            Directive::LinkArg { flag, target } => link_arg_line(flag@, target),
            Directive::LinkLib { lib } => "cargo::rustc-link-lib="@ + lib@,
            Directive::LinkSearch { path, kind } => link_search_line(path@, kind, prefix),
            Directive::Flags { flags } => "cargo::rustc-flags="@ + flags@,
            Directive::Cfg { key, value } => cfg_line(
                key@,
                match value {
                    Some(v) => Some(v@),
                    None => None,
                },
            ),
            Directive::CheckCfg { cfg } => "cargo::rustc-check-cfg="@ + cfg@,
            Directive::Env { var, value } => "cargo::rustc-env="@ + var@ + "="@ + value@,
        }
    }

    /// The text of the line that encodes this directive, with the legacy
    /// link-search prefix.
    pub open spec fn spec_line(self) -> Seq<char> {
        self.spec_line_with(legacy_search_prefix())
    }
}


/// `head` followed by `a`.
pub(crate) fn join2(head: &str, a: &str) -> (r: String)
    ensures
        r@ == head@ + a@,
{
    let mut r = String::from_str(head);
    r.append(a);
    r
}

/// `head`, `a`, `sep` and `b`, in this order.
pub(crate) fn join4(head: &str, a: &str, sep: &str, b: &str) -> (r: String)
    ensures
        r@ == head@ + a@ + sep@ + b@,
{
    let mut r = String::from_str(head);
    r.append(a);
    r.append(sep);
    r.append(b);
    r
}

/// The line for a linker argument, by target.
pub fn link_arg_text(flag: &str, target: &LinkTarget) -> (r: String)
    ensures
        r@ == link_arg_line(flag@, *target),
{
    match target {
        LinkTarget::Unscoped => join2("cargo::rustc-link-arg=", flag),
        LinkTarget::Bin(bin) => join4("cargo::rustc-link-arg-bin=", bin.as_str(), "=", flag),
        LinkTarget::Bins => join2("cargo::rustc-link-arg-bins=", flag),
        LinkTarget::Tests => join2("cargo::rustc-link-arg-tests=", flag),
        LinkTarget::Examples => join2("cargo::rustc-link-arg-examples=", flag),
        LinkTarget::Cdylib => join2("cargo::rustc-cdylib-link-arg=", flag),
    }
}

/// The line for a link-search directory; `prefix` is the one used when no
/// kind is given.
pub fn link_search_text(path: &str, kind: Option<LinkSearchKind>, prefix: &str) -> (r: String)
    ensures
        r@ == link_search_line(path@, kind, prefix@),
{
    match kind {
        Some(k) => join4("cargo::rustc-link-search=", k.as_str(), "=", path),
        None => {
            let mut r = join2(prefix, "rustc-link-search=");
            r.append(path);
            r
        },
    }
}

/// The line for a cfg flag: the value, if any, stands in double quotes.
pub fn cfg_text(key: &str, value: Option<&str>) -> (r: String)
    ensures
        r@ == cfg_line(
            key@,
            match value {
                Some(v) => Some(v@),
                None => None,
            },
        ),
{
    match value {
        Some(v) => {
            let mut r = join4("cargo::rustc-cfg=", key, "=\"", v);
            r.append("\"");
            r
        },
        None => join2("cargo::rustc-cfg=", key),
    }
}

impl Directive {
    /// The line that encodes this directive, without the line terminator;
    /// `prefix` stands before a link-search line without a kind.
    pub fn line_with(&self, prefix: &str) -> (r: String)
        ensures
            r@ == self.spec_line_with(prefix@),
    {
        match self {
            Directive::RerunIfChanged { path } => join2("cargo::rerun-if-changed=", path.as_str()),
            Directive::RerunIfEnvChanged { var } => join2(
                "cargo::rerun-if-env-changed=",
                var.as_str(),
            ),
            Directive::Warning { message } => join2("cargo::warning=", message.as_str()),
            Directive::Metadata { key, value } => join4(
                "cargo::metadata=",
                key.as_str(),
                "=",
                value.as_str(),
            ),
            Directive::LinkArg { flag, target } => link_arg_text(flag.as_str(), target),
            Directive::LinkLib { lib } => join2("cargo::rustc-link-lib=", lib.as_str()),
            Directive::LinkSearch { path, kind } => link_search_text(path.as_str(), *kind, prefix),
            Directive::Flags { flags } => join2("cargo::rustc-flags=", flags.as_str()),
            Directive::Cfg { key, value } => match value {
                Some(v) => cfg_text(key.as_str(), Some(v.as_str())),
                None => cfg_text(key.as_str(), None),
            },
            Directive::CheckCfg { cfg } => join2("cargo::rustc-check-cfg=", cfg.as_str()),
            Directive::Env { var, value } => join4(
                "cargo::rustc-env=",
                var.as_str(),
                "=",
                value.as_str(),
            ),
        }
    }

    /// The line that encodes this directive, without the line terminator.
    pub fn line(&self) -> (r: String)
        ensures
            r@ == self.spec_line(),
    {
        self.line_with("carg::")
    }
}

} // verus!

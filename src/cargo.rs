use vstd::prelude::*;

use crate::directive::{join2, join4};
use crate::env::{lookup, text_result, Environment, LookupError};

verus! {

/// Whether the value of a variable is a path or plain text.
#[derive(Clone, Copy, Debug, PartialEq, Eq, Structural)]
pub enum ValueKind {
    Path,
    Text,
}

/// A path handed over by the orchestrator. It is built from the text alone:
/// nothing on disk is consulted.
#[derive(Debug)]
pub struct BuildPath {
    text: String,
}

impl View for BuildPath {
    type V = Seq<char>;

    closed spec fn view(&self) -> Seq<char> {
        self.text@
    }
}

impl BuildPath {
    /// The path written as `text`.
    pub fn from_text(text: String) -> (r: BuildPath)
        ensures
            r@ == text@,
    {
        BuildPath { text }
    }

    /// The text of the path.
    pub fn as_str(&self) -> (r: &str)
        ensures
            r@ == self@,
    {
        self.text.as_str()
    }

    /// The text of the path, taken out of it.
    pub fn into_text(self) -> (r: String)
        ensures
            r@ == self@,
    {
        self.text
    }
}

/// A value read from the environment, typed by its key.
#[derive(Debug)]
pub enum EnvValue {
    Text(String),
    Path(BuildPath),
}

impl EnvValue {
    /// The kind of value this is.
    pub open spec fn kind(self) -> ValueKind {
        match self {
            EnvValue::Text(_) => ValueKind::Text,
            EnvValue::Path(_) => ValueKind::Path,
        }
    }

    /// The text of the value.
    pub open spec fn text(self) -> Seq<char> {
        match self {
            EnvValue::Text(t) => t@,
            EnvValue::Path(p) => p@,
        }
    }
}

/// The text of a typed read, as a mathematical value.
pub open spec fn value_result(r: Result<EnvValue, LookupError>) -> Result<Seq<char>, LookupError> {
    match r {
        Ok(v) => Ok(v.text()),
        Err(e) => Err(e),
    }
}

/// The text of a path read, as a mathematical value.
pub open spec fn path_result(r: Result<BuildPath, LookupError>) -> Result<Seq<char>, LookupError> {
    match r {
        Ok(p) => Ok(p@),
        Err(e) => Err(e),
    }
}

/// The variables that the orchestrator sets for a build script.
#[derive(Clone, Copy, Debug, PartialEq, Eq, Structural)]
pub enum EnvKey {
    /// Path to the `cargo` binary performing the build.
    BinaryPath,
    /// The directory containing the manifest of the package.
    ManifestDir,
    /// The path to the manifest of the package.
    ManifestPath,
    /// The full version of the package.
    PkgVersion,
    /// The major version of the package.
    PkgVersionMajor,
    /// The minor version of the package.
    PkgVersionMinor,
    /// The patch version of the package.
    PkgVersionPatch,
    /// The pre-release version of the package.
    PkgVersionPre,
    /// Colon separated list of authors from the manifest of the package.
    PkgAuthors,
    /// The name of the package.
    PkgName,
    /// The description from the manifest of the package.
    PkgDescription,
    /// The home page from the manifest of the package.
    PkgHomepage,
    /// The repository from the manifest of the package.
    PkgRepository,
    /// The license from the manifest of the package.
    PkgLicense,
    /// The license file from the manifest of the package.
    PkgLicenseFile,
    /// The minimum Rust version that the package supports, from its manifest.
    PkgRustVersion,
    /// Path to the README file of the package.
    PkgReadme,
    /// The name of the crate being compiled: the Cargo target's name with `-` turned into `_`.
    CrateName,
    /// The name of the binary being compiled, without file extension; set only for binaries.
    BinName,
    /// The folder where the build script places its output.
    OutDir,
    /// A directory where integration tests or benchmarks may put their data.
    TargetTmpdir,
    /// The directory that rustc is invoked from.
    RustcCurrentDir,
}

impl EnvKey {
    /// The name of the variable.
    pub open spec fn spec_name(self) -> Seq<char> {
        match self {
            EnvKey::BinaryPath => "CARGO"@,
            EnvKey::ManifestDir => "CARGO_MANIFEST_DIR"@,
            EnvKey::ManifestPath => "CARGO_MANIFEST_PATH"@,
            EnvKey::PkgVersion => "CARGO_PKG_VERSION"@,
            EnvKey::PkgVersionMajor => "CARGO_PKG_VERSION_MAJOR"@,
            EnvKey::PkgVersionMinor => "CARGO_PKG_VERSION_MINOR"@,
            EnvKey::PkgVersionPatch => "CARGO_PKG_VERSION_PATCH"@,
            EnvKey::PkgVersionPre => "CARGO_PKG_VERSION_PRE"@,
            EnvKey::PkgAuthors => "CARGO_PKG_AUTHORS"@,
            EnvKey::PkgName => "CARGO_PKG_NAME"@,
            EnvKey::PkgDescription => "CARGO_PKG_DESCRIPTION"@,
            EnvKey::PkgHomepage => "CARGO_PKG_HOMEPAGE"@,
            EnvKey::PkgRepository => "CARGO_PKG_REPOSITORY"@,
            EnvKey::PkgLicense => "CARGO_PKG_LICENSE"@,
            EnvKey::PkgLicenseFile => "CARGO_PKG_LICENSE_FILE"@,
            EnvKey::PkgRustVersion => "CARGO_PKG_RUST_VERSION"@,
            EnvKey::PkgReadme => "CARGO_PKG_README"@,
            EnvKey::CrateName => "CARGO_CRATE_NAME"@,
            EnvKey::BinName => "CARGO_BIN_NAME"@,
            EnvKey::OutDir => "OUT_DIR"@,
            EnvKey::TargetTmpdir => "CARGO_TARGET_TMPDIR"@,
            EnvKey::RustcCurrentDir => "CARGO_RUSTC_CURRENT_DIR"@,
        }
    }

    /// The kind of value the variable holds.
    pub open spec fn spec_kind(self) -> ValueKind {
        match self {
            EnvKey::BinaryPath => ValueKind::Path,
            EnvKey::ManifestDir => ValueKind::Path,
            EnvKey::ManifestPath => ValueKind::Path,
            EnvKey::PkgVersion => ValueKind::Text,
            EnvKey::PkgVersionMajor => ValueKind::Text,
            EnvKey::PkgVersionMinor => ValueKind::Text,
            EnvKey::PkgVersionPatch => ValueKind::Text,
            EnvKey::PkgVersionPre => ValueKind::Text,
            EnvKey::PkgAuthors => ValueKind::Text,
            EnvKey::PkgName => ValueKind::Text,
            EnvKey::PkgDescription => ValueKind::Text,
            EnvKey::PkgHomepage => ValueKind::Text,
            EnvKey::PkgRepository => ValueKind::Text,
            EnvKey::PkgLicense => ValueKind::Text,
            EnvKey::PkgLicenseFile => ValueKind::Path,
            EnvKey::PkgRustVersion => ValueKind::Text,
            EnvKey::PkgReadme => ValueKind::Path,
            EnvKey::CrateName => ValueKind::Text,
            EnvKey::BinName => ValueKind::Text,
            EnvKey::OutDir => ValueKind::Path,
            EnvKey::TargetTmpdir => ValueKind::Path,
            EnvKey::RustcCurrentDir => ValueKind::Path,
        }
    }

    /// The name of the variable.
    pub fn name(&self) -> (r: &'static str)
        ensures
            r@ == self.spec_name(),
    {
        match self {
            EnvKey::BinaryPath => "CARGO",
            EnvKey::ManifestDir => "CARGO_MANIFEST_DIR",
            EnvKey::ManifestPath => "CARGO_MANIFEST_PATH",
            EnvKey::PkgVersion => "CARGO_PKG_VERSION",
            EnvKey::PkgVersionMajor => "CARGO_PKG_VERSION_MAJOR",
            EnvKey::PkgVersionMinor => "CARGO_PKG_VERSION_MINOR",
            EnvKey::PkgVersionPatch => "CARGO_PKG_VERSION_PATCH",
            EnvKey::PkgVersionPre => "CARGO_PKG_VERSION_PRE",
            EnvKey::PkgAuthors => "CARGO_PKG_AUTHORS",
            EnvKey::PkgName => "CARGO_PKG_NAME",
            EnvKey::PkgDescription => "CARGO_PKG_DESCRIPTION",
            EnvKey::PkgHomepage => "CARGO_PKG_HOMEPAGE",
            EnvKey::PkgRepository => "CARGO_PKG_REPOSITORY",
            EnvKey::PkgLicense => "CARGO_PKG_LICENSE",
            EnvKey::PkgLicenseFile => "CARGO_PKG_LICENSE_FILE",
            EnvKey::PkgRustVersion => "CARGO_PKG_RUST_VERSION",
            EnvKey::PkgReadme => "CARGO_PKG_README",
            EnvKey::CrateName => "CARGO_CRATE_NAME",
            EnvKey::BinName => "CARGO_BIN_NAME",
            EnvKey::OutDir => "OUT_DIR",
            EnvKey::TargetTmpdir => "CARGO_TARGET_TMPDIR",
            EnvKey::RustcCurrentDir => "CARGO_RUSTC_CURRENT_DIR",
        }
    }

    /// The kind of value the variable holds.
    pub fn kind(&self) -> (r: ValueKind)
        ensures
            r == self.spec_kind(),
    {
        match self {
            EnvKey::BinaryPath => ValueKind::Path,
            EnvKey::ManifestDir => ValueKind::Path,
            EnvKey::ManifestPath => ValueKind::Path,
            EnvKey::PkgVersion => ValueKind::Text,
            EnvKey::PkgVersionMajor => ValueKind::Text,
            EnvKey::PkgVersionMinor => ValueKind::Text,
            EnvKey::PkgVersionPatch => ValueKind::Text,
            EnvKey::PkgVersionPre => ValueKind::Text,
            EnvKey::PkgAuthors => ValueKind::Text,
            EnvKey::PkgName => ValueKind::Text,
            EnvKey::PkgDescription => ValueKind::Text,
            EnvKey::PkgHomepage => ValueKind::Text,
            EnvKey::PkgRepository => ValueKind::Text,
            EnvKey::PkgLicense => ValueKind::Text,
            EnvKey::PkgLicenseFile => ValueKind::Path,
            EnvKey::PkgRustVersion => ValueKind::Text,
            EnvKey::PkgReadme => ValueKind::Path,
            EnvKey::CrateName => ValueKind::Text,
            EnvKey::BinName => ValueKind::Text,
            EnvKey::OutDir => ValueKind::Path,
            EnvKey::TargetTmpdir => ValueKind::Path,
            EnvKey::RustcCurrentDir => ValueKind::Path,
        }
    }
}

/// The name of the variable that holds the path of the executable of the
/// binary target `binary_name`: a fixed prefix followed by the name, as it is.
pub open spec fn binary_path_key(binary_name: Seq<char>) -> Seq<char> {
    "CARGO_BIN_EXE_"@ + binary_name
}

/// The name of the variable whose presence marks the primary package.
pub open spec fn primary_package_key() -> Seq<char> {
    "CARGO_PRIMARY_PACKAGE"@
}

/// Build-script lines about reruns, warnings and metadata, and the values
/// that the orchestrator places in the environment.
pub struct Cargo {
    _private: (),
}

impl Cargo {
    /// The line that asks for the build script to run again when the file at
    /// `path` changes.
    pub fn rerun_if_changed(path: &str) -> (r: String)
        ensures
            r@ == "cargo::rerun-if-changed="@ + path@,
    {
        join2("cargo::rerun-if-changed=", path)
    }

    /// The line that asks for the build script to run again when the
    /// environment variable `env` changes.
    pub fn rerun_if_env_changed(env: &str) -> (r: String)
        ensures
            r@ == "cargo::rerun-if-env-changed="@ + env@,
    {
        join2("cargo::rerun-if-env-changed=", env)
    }

    /// The line that shows a warning during the build.
    pub fn warning(message: &str) -> (r: String)
        ensures
            r@ == "cargo::warning="@ + message@,
    {
        join2("cargo::warning=", message)
    }

    /// The line that sets metadata for dependent packages.
    pub fn metadata(key: &str, value: &str) -> (r: String)
        ensures
            r@ == "cargo::metadata="@ + key@ + "="@ + value@,
    {
        join4("cargo::metadata=", key, "=", value)
    }

    /// Reads `key` and gives it the type of value that it holds.
    pub fn read(env: &Environment, key: EnvKey) -> (r: Result<EnvValue, LookupError>)
        ensures
            value_result(r) == lookup(env@, key.spec_name()),
            r is Ok ==> r->Ok_0.kind() == key.spec_kind(),
    {
        match env.var(key.name()) {
            Ok(t) => match key.kind() {
                ValueKind::Path => Ok(EnvValue::Path(BuildPath::from_text(t))),
                ValueKind::Text => Ok(EnvValue::Text(t)),
            },
            Err(e) => Err(e),
        }
    }

    /// Reads a variable that holds text.
    fn read_text(env: &Environment, key: EnvKey) -> (r: Result<String, LookupError>)
        ensures
            text_result(r) == lookup(env@, key.spec_name()),
    {
        env.var(key.name())
    }

    /// Reads a variable that holds a path.
    fn read_path(env: &Environment, key: EnvKey) -> (r: Result<BuildPath, LookupError>)
        ensures
            path_result(r) == lookup(env@, key.spec_name()),
    {
        match env.var(key.name()) {
            Ok(t) => Ok(BuildPath::from_text(t)),
            Err(e) => Err(e),
        }
    }

    /// The path to the executable of the binary target `binary_name`.
    pub fn binary_executable_path(env: &Environment, binary_name: &str) -> (r: Result<
        BuildPath,
        LookupError,
    >)
        ensures
            path_result(r) == lookup(env@, binary_path_key(binary_name@)),
    {
        let key = join2("CARGO_BIN_EXE_", binary_name);
        match env.var(key.as_str()) {
            Ok(t) => Ok(BuildPath::from_text(t)),
            Err(e) => Err(e),
        }
    }

    /// Whether the package being built is the primary package: the marker
    /// variable is set, to any value.
    pub fn is_primary_package(env: &Environment) -> (r: bool)
        ensures
            r == env@.contains_key(primary_package_key()),
    {
        env.is_set("CARGO_PRIMARY_PACKAGE")
    }


    /// Path to the `cargo` binary performing the build.
    pub fn binary_path(env: &Environment) -> (r: Result<BuildPath, LookupError>)
        ensures
            path_result(r) == lookup(env@, EnvKey::BinaryPath.spec_name()),
    {
        Cargo::read_path(env, EnvKey::BinaryPath)
    }

    /// The directory containing the manifest of the package.
    pub fn manifest_dir(env: &Environment) -> (r: Result<BuildPath, LookupError>)
        ensures
            path_result(r) == lookup(env@, EnvKey::ManifestDir.spec_name()),
    {
        Cargo::read_path(env, EnvKey::ManifestDir)
    }

    /// The path to the manifest of the package.
    pub fn manifest_path(env: &Environment) -> (r: Result<BuildPath, LookupError>)
        ensures
            path_result(r) == lookup(env@, EnvKey::ManifestPath.spec_name()),
    {
        Cargo::read_path(env, EnvKey::ManifestPath)
    }

    /// The full version of the package.
    pub fn pkg_version(env: &Environment) -> (r: Result<String, LookupError>)
        ensures
            text_result(r) == lookup(env@, EnvKey::PkgVersion.spec_name()),
    {
        Cargo::read_text(env, EnvKey::PkgVersion)
    }

    /// The major version of the package.
    pub fn pkg_version_major(env: &Environment) -> (r: Result<String, LookupError>)
        ensures
            text_result(r) == lookup(env@, EnvKey::PkgVersionMajor.spec_name()),
    {
        Cargo::read_text(env, EnvKey::PkgVersionMajor)
    }

    /// The minor version of the package.
    pub fn pkg_version_minor(env: &Environment) -> (r: Result<String, LookupError>)
        ensures
            text_result(r) == lookup(env@, EnvKey::PkgVersionMinor.spec_name()),
    {
        Cargo::read_text(env, EnvKey::PkgVersionMinor)
    }

    /// The patch version of the package.
    pub fn pkg_version_patch(env: &Environment) -> (r: Result<String, LookupError>)
        ensures
            text_result(r) == lookup(env@, EnvKey::PkgVersionPatch.spec_name()),
    {
        Cargo::read_text(env, EnvKey::PkgVersionPatch)
    }

    /// The pre-release version of the package.
    pub fn pkg_version_pre(env: &Environment) -> (r: Result<String, LookupError>)
        ensures
            text_result(r) == lookup(env@, EnvKey::PkgVersionPre.spec_name()),
    {
        Cargo::read_text(env, EnvKey::PkgVersionPre)
    }

    /// Colon separated list of authors from the manifest of the package.
    pub fn pkg_authors(env: &Environment) -> (r: Result<String, LookupError>)
        ensures
            text_result(r) == lookup(env@, EnvKey::PkgAuthors.spec_name()),
    {
        Cargo::read_text(env, EnvKey::PkgAuthors)
    }

    /// The name of the package.
    pub fn pkg_name(env: &Environment) -> (r: Result<String, LookupError>)
        ensures
            text_result(r) == lookup(env@, EnvKey::PkgName.spec_name()),
    {
        Cargo::read_text(env, EnvKey::PkgName)
    }

    /// The description from the manifest of the package.
    pub fn pkg_description(env: &Environment) -> (r: Result<String, LookupError>)
        ensures
            text_result(r) == lookup(env@, EnvKey::PkgDescription.spec_name()),
    {
        Cargo::read_text(env, EnvKey::PkgDescription)
    }

    /// The home page from the manifest of the package.
    pub fn pkg_homepage(env: &Environment) -> (r: Result<String, LookupError>)
        ensures
            text_result(r) == lookup(env@, EnvKey::PkgHomepage.spec_name()),
    {
        Cargo::read_text(env, EnvKey::PkgHomepage)
    }

    /// The repository from the manifest of the package.
    pub fn pkg_repository(env: &Environment) -> (r: Result<String, LookupError>)
        ensures
            text_result(r) == lookup(env@, EnvKey::PkgRepository.spec_name()),
    {
        Cargo::read_text(env, EnvKey::PkgRepository)
    }

    /// The license from the manifest of the package.
    pub fn pkg_license(env: &Environment) -> (r: Result<String, LookupError>)
        ensures
            text_result(r) == lookup(env@, EnvKey::PkgLicense.spec_name()),
    {
        Cargo::read_text(env, EnvKey::PkgLicense)
    }

    /// The license file from the manifest of the package.
    pub fn pkg_license_file(env: &Environment) -> (r: Result<BuildPath, LookupError>)
        ensures
            path_result(r) == lookup(env@, EnvKey::PkgLicenseFile.spec_name()),
    {
        Cargo::read_path(env, EnvKey::PkgLicenseFile)
    }

    /// The minimum Rust version that the package supports, from its manifest.
    pub fn pkg_rust_version(env: &Environment) -> (r: Result<String, LookupError>)
        ensures
            text_result(r) == lookup(env@, EnvKey::PkgRustVersion.spec_name()),
    {
        Cargo::read_text(env, EnvKey::PkgRustVersion)
    }

    /// Path to the README file of the package.
    pub fn pkg_readme(env: &Environment) -> (r: Result<BuildPath, LookupError>)
        ensures
            path_result(r) == lookup(env@, EnvKey::PkgReadme.spec_name()),
    {
        Cargo::read_path(env, EnvKey::PkgReadme)
    }

    /// The name of the crate being compiled: the Cargo target's name with `-` turned into `_`.
    pub fn crate_name(env: &Environment) -> (r: Result<String, LookupError>)
        ensures
            text_result(r) == lookup(env@, EnvKey::CrateName.spec_name()),
    {
        Cargo::read_text(env, EnvKey::CrateName)
    }

    /// The name of the binary being compiled, without file extension; set only for binaries.
    pub fn bin_name(env: &Environment) -> (r: Result<String, LookupError>)
        ensures
            text_result(r) == lookup(env@, EnvKey::BinName.spec_name()),
    {
        Cargo::read_text(env, EnvKey::BinName)
    }

    /// The folder where the build script places its output.
    pub fn out_dir(env: &Environment) -> (r: Result<BuildPath, LookupError>)
        ensures
            path_result(r) == lookup(env@, EnvKey::OutDir.spec_name()),
    {
        Cargo::read_path(env, EnvKey::OutDir)
    }

    /// A directory where integration tests or benchmarks may put their data.
    pub fn target_tmpdir(env: &Environment) -> (r: Result<BuildPath, LookupError>)
        ensures
            path_result(r) == lookup(env@, EnvKey::TargetTmpdir.spec_name()),
    {
        Cargo::read_path(env, EnvKey::TargetTmpdir)
    }

    /// The directory that rustc is invoked from.
    pub fn rustc_current_dir(env: &Environment) -> (r: Result<BuildPath, LookupError>)
        ensures
            path_result(r) == lookup(env@, EnvKey::RustcCurrentDir.spec_name()),
    {
        Cargo::read_path(env, EnvKey::RustcCurrentDir)
    }
}

} // verus!

//! Build-strategy selection: how the native compiler artifact is
//! obtained, and which linker directives follow from that choice.

use vstd::prelude::*;
use vstd::string::StringExecFns;

verus! {

/// Operating-system family of the build host, as far as the selector
/// distinguishes it.
#[derive(Clone, Copy, PartialEq, Eq, Structural, Debug)]
pub enum TargetOs {
    Linux,
    Windows,
    MacOs,
    OtherOs,
}

/// Toolchain environment variant of the build host.
#[derive(Clone, Copy, PartialEq, Eq, Structural, Debug)]
pub enum TargetEnv {
    Gnu,
    Msvc,
    OtherEnv,
}

/// The platform profile that all platform-specific branching keys on.
#[derive(Clone, Copy, PartialEq, Eq, Structural, Debug)]
pub struct ToolchainProfile {
    pub os: TargetOs,
    pub env: TargetEnv,
}

/// Build-time configuration, read once from the host environment and
/// passed explicitly into the decision functions.
pub struct BuildConfig {
    /// The build was requested by a lightweight analysis tool that does
    /// not need a real artifact; the whole selector must no-op.
    pub analysis_only: bool,
    /// Directory holding pre-built native libraries, if one was given.
    pub prebuilt_lib_dir: Option<String>,
    /// Whether building the native dependency from source is enabled.
    pub build_from_source: bool,
    pub profile: ToolchainProfile,
}

/// The four ways a build can go, in strict priority order.
#[derive(Clone, Copy, PartialEq, Eq, Structural, Debug)]
pub enum Strategy {
    /// Analysis-only build: do nothing at all.
    Skip,
    /// An explicit pre-built library path was supplied: link against it.
    UsePrebuilt,
    /// No explicit path, from-source mode enabled: fetch and build.
    FromSource,
    /// Neither configured: warn and emit no artifact linkage.
    WarnOnly,
}

/// The strategy a configuration selects: the analysis-only signal
/// silences everything; otherwise an explicit pre-built path wins over
/// from-source mode, and with neither the selector only warns.
pub open spec fn chosen_strategy(cfg: BuildConfig) -> Strategy {
    if cfg.analysis_only {
        Strategy::Skip
    } else if cfg.prebuilt_lib_dir is Some {
        Strategy::UsePrebuilt
    } else if cfg.build_from_source {
        Strategy::FromSource
    } else {
        Strategy::WarnOnly
    }
}

/// Decides which strategy a configuration selects.
pub fn select_strategy(cfg: &BuildConfig) -> (s: Strategy)
    ensures
        s == chosen_strategy(*cfg),
{
    if cfg.analysis_only {
        Strategy::Skip
    } else if cfg.prebuilt_lib_dir.is_some() {
        Strategy::UsePrebuilt
    } else if cfg.build_from_source {
        Strategy::FromSource
    } else {
        Strategy::WarnOnly
    }
}

/// Everything the surrounding build step must do for one build: which
/// subprocesses to run and which linker directives to emit.
#[derive(Debug)]
pub struct BuildPlan {
    /// Run the dependency-fetch script before building.
    pub run_fetch: bool,
    /// Run the native build system against the vendored source tree.
    pub run_native_build: bool,
    /// Link-search directive, known up front only for a pre-built path;
    /// a from-source build learns its path from the build output
    /// directory, through `built_search_path`.
    pub link_search: Option<String>,
    /// Static-link directives, in emission order.
    pub static_libs: Vec<String>,
    /// Dynamic-link directive for the host's native runtime support
    /// library, if the platform profile is a recognized one.
    pub runtime_dylib: Option<String>,
    /// Non-fatal warning to surface to the build log, if any.
    pub warning: Option<String>,
}

/// The view of an optional owned string.
pub open spec fn opt_str_view(o: Option<String>) -> Option<Seq<char>> {
    match o {
        Some(s) => Some(s@),
        None => None,
    }
}

/// The native-runtime dynamic-link lookup table: one library name on
/// Linux and on Windows with the GNU toolchain, another on macOS, and
/// no directive for every other combination.
pub open spec fn runtime_dylib_spec(p: ToolchainProfile) -> Option<Seq<char>> {
    if p.os == TargetOs::Linux || (p.os == TargetOs::Windows && p.env == TargetEnv::Gnu) {
        Some("stdc++"@)
    } else if p.os == TargetOs::MacOs {
        Some("c++"@)
    } else {
        None
    }
}

/// Emits the native-runtime dynamic-link directive for a platform
/// profile, exactly as the lookup table has it.
pub fn runtime_dylib(profile: &ToolchainProfile) -> (r: Option<String>)
    ensures
        opt_str_view(r) == runtime_dylib_spec(*profile),
{
    match (profile.os, profile.env) {
        (TargetOs::Linux, _) => Some("stdc++".to_owned()),
        (TargetOs::Windows, TargetEnv::Gnu) => Some("stdc++".to_owned()),
        (TargetOs::MacOs, _) => Some("c++".to_owned()),
        _ => None,
    }
}

/// The two static libraries every linkable artifact consists of: the
/// combined compiler library, then its foreign-function shim library.
pub open spec fn static_libs_ok(libs: Seq<String>) -> bool {
    &&& libs.len() == 2
    &&& libs[0]@ == "clspv_combined"@
    &&& libs[1]@ == "clspv_ffi"@
}

fn static_link_libs() -> (v: Vec<String>)
    ensures
        static_libs_ok(v@),
{
    let mut v: Vec<String> = Vec::new();
    v.push("clspv_combined".to_owned());
    v.push("clspv_ffi".to_owned());
    v
}

/// Note surfaced when a pre-built library path is used.
pub open spec fn prebuilt_note_text() -> Seq<char> {
    "searching native clspv libraries in the configured directory"@
}

/// Note surfaced when the native dependency is built from source.
pub open spec fn from_source_note_text() -> Seq<char> {
    "building clspv from source. it may take a while"@
}

/// Warning surfaced when no artifact source is configured; it names
/// both alternatives.
pub open spec fn missing_artifact_warning_text() -> Seq<char> {
    "clspv libraries not found - either enable the build-from-source mode or provide a path to pre-built binaries"@
}

/// What a correct plan for a configuration looks like, case by case
/// over the chosen strategy. The native-runtime directive is emitted on
/// every path except the analysis-only no-op.
pub open spec fn plan_ok(cfg: BuildConfig, p: BuildPlan) -> bool {
    match chosen_strategy(cfg) {
        Strategy::Skip => {
            &&& !p.run_fetch
            &&& !p.run_native_build
            &&& p.link_search is None
            &&& p.static_libs@.len() == 0
            &&& p.runtime_dylib is None
            &&& p.warning is None
        },
        Strategy::UsePrebuilt => {
            &&& !p.run_fetch
            &&& !p.run_native_build
            &&& opt_str_view(p.link_search) == opt_str_view(cfg.prebuilt_lib_dir)
            &&& static_libs_ok(p.static_libs@)
            &&& opt_str_view(p.runtime_dylib) == runtime_dylib_spec(cfg.profile)
            &&& p.warning matches Some(w) && w@ == prebuilt_note_text()
        },
        Strategy::FromSource => {
            &&& p.run_fetch
            &&& p.run_native_build
            &&& p.link_search is None
            &&& static_libs_ok(p.static_libs@)
            &&& opt_str_view(p.runtime_dylib) == runtime_dylib_spec(cfg.profile)
            &&& p.warning matches Some(w) && w@ == from_source_note_text()
        },
        Strategy::WarnOnly => {
            &&& !p.run_fetch
            &&& !p.run_native_build
            &&& p.link_search is None
            &&& p.static_libs@.len() == 0
            &&& opt_str_view(p.runtime_dylib) == runtime_dylib_spec(cfg.profile)
            &&& p.warning matches Some(w) && w@ == missing_artifact_warning_text()
        },
    }
}

/// Decides, once per build, everything the build step must do: the
/// strategy in priority order and the directives that follow from it.
pub fn plan_build(cfg: BuildConfig) -> (p: BuildPlan)
    ensures
        plan_ok(cfg, p),
{
    if cfg.analysis_only {
        return BuildPlan {
            run_fetch: false,
            run_native_build: false,
            link_search: None,
            static_libs: Vec::new(),
            runtime_dylib: None,
            warning: None,
        };
    }
    let runtime = runtime_dylib(&cfg.profile);
    match cfg.prebuilt_lib_dir {
        Some(dir) => BuildPlan {
            run_fetch: false,
            run_native_build: false,
            link_search: Some(dir),
            static_libs: static_link_libs(),
            runtime_dylib: runtime,
            warning: Some("searching native clspv libraries in the configured directory".to_owned()),
        },
        None => {
            if cfg.build_from_source {
                BuildPlan {
                    run_fetch: true,
                    run_native_build: true,
                    link_search: None,
                    static_libs: static_link_libs(),
                    runtime_dylib: runtime,
                    warning: Some("building clspv from source. it may take a while".to_owned()),
                }
            } else {
                BuildPlan {
                    run_fetch: false,
                    run_native_build: false,
                    link_search: None,
                    static_libs: Vec::new(),
                    runtime_dylib: runtime,
                    warning: Some("clspv libraries not found - either enable the build-from-source mode or provide a path to pre-built binaries".to_owned()),
                }
            }
        },
    }
}

/// The library subdirectory of a finished native build's output
/// directory, where the static libraries land.
pub fn built_search_path(out_dir: &str) -> (p: String)
    ensures
        p@ == out_dir@ + "/lib"@,
{
    let mut p = out_dir.to_owned();
    p.append("/lib");
    p
}

/// One key/value pair handed to the native build system.
pub open spec fn define_is(d: (String, String), key: Seq<char>, value: Seq<char>) -> bool {
    d.0@ == key && d.1@ == value
}

/// The configuration of one invocation of the external native build
/// system.
#[derive(Debug)]
pub struct NativeBuildConfig {
    /// The vendored source tree the build runs against.
    pub source_dir: String,
    /// Configuration key/value pairs, in order.
    pub defines: Vec<(String, String)>,
    /// The build always runs in the release profile: the native
    /// dependency needs prohibitive amounts of memory unoptimized.
    pub release_profile: bool,
    /// Whether to re-run project configuration when an earlier one
    /// exists; suppressed, since configuring is expensive.
    pub reconfigure: bool,
    /// Build-file generator, chosen only for the MSVC profile.
    pub generator: Option<String>,
}

/// The defines every platform gets: position-independent code, a
/// normalized single library directory, and the optional native
/// dependencies (terminal-capability and compression support) switched
/// off to shrink the dependency surface.
pub open spec fn common_defines_ok(d: Seq<(String, String)>) -> bool {
    &&& d.len() >= 5
    &&& define_is(d[0], "CMAKE_POSITION_INDEPENDENT_CODE"@, "ON"@)
    &&& define_is(d[1], "CMAKE_INSTALL_LIBDIR"@, "lib"@)
    &&& define_is(d[2], "LLVM_ENABLE_TERMINFO"@, "OFF"@)
    &&& define_is(d[3], "LLVM_ENABLE_ZSTD"@, "OFF"@)
    &&& define_is(d[4], "LLVM_ENABLE_ZLIB"@, "OFF"@)
}

/// What the native build configuration must hold for a toolchain
/// environment: the common defines always; under MSVC additionally the
/// path-length and warning-suppression overrides and a fixed generator,
/// everywhere else the plain default generator.
pub open spec fn native_build_config_ok(env: TargetEnv, c: NativeBuildConfig) -> bool {
    &&& c.source_dir@ == "clspv-ffi"@
    &&& common_defines_ok(c.defines@)
    &&& c.release_profile
    &&& !c.reconfigure
    &&& if env == TargetEnv::Msvc {
        &&& c.defines@.len() == 8
        &&& define_is(c.defines@[5], "CMAKE_OBJECT_PATH_MAX"@, "512"@)
        &&& define_is(c.defines@[6], "CMAKE_C_FLAGS"@, "/Wv:18"@)
        &&& define_is(c.defines@[7], "CMAKE_CXX_FLAGS"@, "/Wv:18"@)
        &&& c.generator matches Some(g) && g@ == "Ninja"@
    } else {
        c.defines@.len() == 5 && c.generator is None
    }
}

/// Produces the native build system's configuration for a toolchain
/// environment.
pub fn native_build_config(env: TargetEnv) -> (c: NativeBuildConfig)
    ensures
        native_build_config_ok(env, c),
{
    let mut defines: Vec<(String, String)> = Vec::new();
    defines.push(("CMAKE_POSITION_INDEPENDENT_CODE".to_owned(), "ON".to_owned()));
    defines.push(("CMAKE_INSTALL_LIBDIR".to_owned(), "lib".to_owned()));
    defines.push(("LLVM_ENABLE_TERMINFO".to_owned(), "OFF".to_owned()));
    defines.push(("LLVM_ENABLE_ZSTD".to_owned(), "OFF".to_owned()));
    defines.push(("LLVM_ENABLE_ZLIB".to_owned(), "OFF".to_owned()));
    let generator: Option<String> = if matches!(env, TargetEnv::Msvc) {
        defines.push(("CMAKE_OBJECT_PATH_MAX".to_owned(), "512".to_owned()));
        defines.push(("CMAKE_C_FLAGS".to_owned(), "/Wv:18".to_owned()));
        defines.push(("CMAKE_CXX_FLAGS".to_owned(), "/Wv:18".to_owned()));
        Some("Ninja".to_owned())
    } else {
        None
    };
    NativeBuildConfig {
        source_dir: "clspv-ffi".to_owned(),
        defines,
        release_profile: true,
        reconfigure: false,
        generator,
    }
}

/// The invocation of the external dependency-fetch script.
#[derive(Debug)]
pub struct FetchCommand {
    /// Directory the script runs in: the vendored source checkout.
    pub workdir: String,
    /// Script path and its arguments, in order.
    pub args: Vec<String>,
}

/// What the fetch invocation must hold: the script against the vendored
/// checkout, with the shallow flag exactly when shallow mode is asked.
pub open spec fn fetch_command_ok(shallow: bool, c: FetchCommand) -> bool {
    &&& c.workdir@ == "clspv-ffi/clspv"@
    &&& c.args@.len() == (if shallow { 2int } else { 1int })
    &&& c.args@[0]@ == "utils/fetch_sources.py"@
    &&& (shallow ==> c.args@[1]@ == "--shallow"@)
}

/// Produces the dependency-fetch invocation.
pub fn fetch_command(shallow: bool) -> (c: FetchCommand)
    ensures
        fetch_command_ok(shallow, c),
{
    let mut args: Vec<String> = Vec::new();
    args.push("utils/fetch_sources.py".to_owned());
    if shallow {
        args.push("--shallow".to_owned());
    }
    FetchCommand { workdir: "clspv-ffi/clspv".to_owned(), args }
}

/// The two external subprocesses a from-source build runs.
#[derive(Clone, Copy, PartialEq, Eq, Structural, Debug)]
pub enum BuildStep {
    FetchSources,
    NativeBuild,
}

/// Fatal build-time failures: a subprocess that exited non-zero.
#[derive(Clone, Copy, PartialEq, Eq, Structural, Debug)]
pub enum BuildError {
    FetchFailed,
    NativeBuildFailed,
}

/// Judges a build subprocess's exit code: zero passes, any other code
/// is fatal to the build, named after the step that failed.
pub fn gate_build_step(step: BuildStep, exit_code: i32) -> (r: Result<(), BuildError>)
    ensures
        r is Ok <==> exit_code == 0,
        r matches Err(e) ==> e == (if step == BuildStep::FetchSources {
            BuildError::FetchFailed
        } else {
            BuildError::NativeBuildFailed
        }),
{
    if exit_code == 0 {
        Ok(())
    } else {
        match step {
            BuildStep::FetchSources => Err(BuildError::FetchFailed),
            BuildStep::NativeBuild => Err(BuildError::NativeBuildFailed),
        }
    }
}

/// Which operating-system family a host-reported identifier names.
pub open spec fn target_os_of(name: Seq<char>) -> TargetOs {
    if name == "linux"@ {
        TargetOs::Linux
    } else if name == "windows"@ {
        TargetOs::Windows
    } else if name == "macos"@ {
        TargetOs::MacOs
    } else {
        TargetOs::OtherOs
    }
}

/// Maps the host-reported operating-system identifier to the family
/// the selector branches on; anything unrecognized is its own family.
pub fn parse_target_os(name: &String) -> (t: TargetOs)
    ensures
        t == target_os_of(name@),
{
    if name.eq(&"linux".to_owned()) {
        TargetOs::Linux
    } else if name.eq(&"windows".to_owned()) {
        TargetOs::Windows
    } else if name.eq(&"macos".to_owned()) {
        TargetOs::MacOs
    } else {
        TargetOs::OtherOs
    }
}

/// Which toolchain environment a host-reported identifier names.
pub open spec fn target_env_of(name: Seq<char>) -> TargetEnv {
    if name == "gnu"@ {
        TargetEnv::Gnu
    } else if name == "msvc"@ {
        TargetEnv::Msvc
    } else {
        TargetEnv::OtherEnv
    }
}

/// Maps the host-reported toolchain-environment identifier to the
/// variant the selector branches on.
pub fn parse_target_env(name: &String) -> (t: TargetEnv)
    ensures
        t == target_env_of(name@),
{
    if name.eq(&"gnu".to_owned()) {
        TargetEnv::Gnu
    } else if name.eq(&"msvc".to_owned()) {
        TargetEnv::Msvc
    } else {
        TargetEnv::OtherEnv
    }
}

/// The compiler-wrapper name that marks a lightweight analysis-only
/// build invocation, which the whole selector must skip.
pub open spec fn analysis_wrapper_name() -> Seq<char> {
    "rust-analyzer"@
}

/// Detects the analysis-only signal in the reported compiler-wrapper
/// name.
pub fn is_analysis_wrapper(wrapper: &String) -> (b: bool)
    ensures
        b == (wrapper@ == analysis_wrapper_name()),
{
    wrapper.eq(&"rust-analyzer".to_owned())
}

/// Law: strategy selection is priority-ordered. When both an explicit
/// pre-built path and from-source mode are configured, only the
/// explicit-path strategy executes: the plan runs no fetch and no
/// native build, and its search path is the configured one.
pub proof fn lemma_explicit_path_wins(cfg: BuildConfig, p: BuildPlan)
    requires
        plan_ok(cfg, p),
        !cfg.analysis_only,
        cfg.prebuilt_lib_dir is Some,
        cfg.build_from_source,
    ensures
        chosen_strategy(cfg) == Strategy::UsePrebuilt,
        !p.run_fetch,
        !p.run_native_build,
        opt_str_view(p.link_search) == opt_str_view(cfg.prebuilt_lib_dir),
{
}

/// Law: a configuration with neither a pre-built path nor from-source
/// mode degrades to a warning. The plan emits no static-link
/// directives, runs no subprocess, and carries a warning instead of
/// aborting the build.
pub proof fn lemma_missing_artifact_warns(cfg: BuildConfig, p: BuildPlan)
    requires
        plan_ok(cfg, p),
        !cfg.analysis_only,
        cfg.prebuilt_lib_dir is None,
        !cfg.build_from_source,
    ensures
        chosen_strategy(cfg) == Strategy::WarnOnly,
        p.static_libs@.len() == 0,
        !p.run_fetch,
        !p.run_native_build,
        p.warning is Some,
{
}

/// Law: the native-runtime dynamic-link directive matches the lookup
/// table exactly for each of the three recognized platform/environment
/// combinations, and is absent for all others.
pub proof fn lemma_runtime_dylib_table(p: ToolchainProfile)
    ensures
        p.os == TargetOs::Linux ==> runtime_dylib_spec(p) == Some("stdc++"@),
        p.os == TargetOs::Windows && p.env == TargetEnv::Gnu ==> runtime_dylib_spec(p) == Some(
            "stdc++"@,
        ),
        p.os == TargetOs::MacOs ==> runtime_dylib_spec(p) == Some("c++"@),
        p.os == TargetOs::Windows && p.env != TargetEnv::Gnu ==> runtime_dylib_spec(p) is None,
        p.os == TargetOs::OtherOs ==> runtime_dylib_spec(p) is None,
{
}

} // verus!


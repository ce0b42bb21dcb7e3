use clspv_sys::strategy::{
    built_search_path, fetch_command, gate_build_step, native_build_config, plan_build,
    runtime_dylib, select_strategy, BuildConfig, BuildError, BuildStep, Strategy, TargetEnv,
    TargetOs, ToolchainProfile,
};

fn linux_gnu() -> ToolchainProfile {
    ToolchainProfile { os: TargetOs::Linux, env: TargetEnv::Gnu }
}

fn config(
    analysis_only: bool,
    prebuilt: Option<&str>,
    from_source: bool,
    profile: ToolchainProfile,
) -> BuildConfig {
    BuildConfig {
        analysis_only,
        prebuilt_lib_dir: prebuilt.map(|s| s.to_string()),
        build_from_source: from_source,
        profile,
    }
}

#[test]
fn explicit_path_wins_over_from_source() {
    // Both an explicit artifact path and from-source mode configured:
    // only the explicit-path strategy may execute.
    let cfg = config(false, Some("/opt/clspv/lib"), true, linux_gnu());
    assert_eq!(select_strategy(&cfg), Strategy::UsePrebuilt);
    let plan = plan_build(cfg);
    assert!(!plan.run_fetch);
    assert!(!plan.run_native_build);
    assert_eq!(plan.link_search, Some("/opt/clspv/lib".to_string()));
    assert_eq!(
        plan.static_libs,
        vec!["clspv_combined".to_string(), "clspv_ffi".to_string()]
    );
    assert_eq!(plan.runtime_dylib, Some("stdc++".to_string()));
}

#[test]
fn missing_artifact_warns_without_linking() {
    // Neither a path nor from-source mode: a warning, no static-link
    // directives, no subprocess, and no abort.
    let cfg = config(false, None, false, linux_gnu());
    assert_eq!(select_strategy(&cfg), Strategy::WarnOnly);
    let plan = plan_build(cfg);
    assert!(!plan.run_fetch);
    assert!(!plan.run_native_build);
    assert_eq!(plan.link_search, None);
    assert!(plan.static_libs.is_empty());
    assert!(plan.warning.is_some());
}

#[test]
fn analysis_only_build_is_a_noop() {
    // Even with every artifact source configured, the analysis-only
    // signal silences the selector entirely.
    let cfg = config(true, Some("/opt/clspv/lib"), true, linux_gnu());
    assert_eq!(select_strategy(&cfg), Strategy::Skip);
    let plan = plan_build(cfg);
    assert!(!plan.run_fetch);
    assert!(!plan.run_native_build);
    assert_eq!(plan.link_search, None);
    assert!(plan.static_libs.is_empty());
    assert_eq!(plan.runtime_dylib, None);
    assert_eq!(plan.warning, None);
}

#[test]
fn from_source_plan_runs_fetch_and_build() {
    let cfg = config(false, None, true, linux_gnu());
    assert_eq!(select_strategy(&cfg), Strategy::FromSource);
    let plan = plan_build(cfg);
    assert!(plan.run_fetch);
    assert!(plan.run_native_build);
    assert_eq!(plan.link_search, None);
    assert_eq!(
        plan.static_libs,
        vec!["clspv_combined".to_string(), "clspv_ffi".to_string()]
    );
    assert_eq!(plan.runtime_dylib, Some("stdc++".to_string()));
}

#[test]
fn runtime_dylib_lookup_table() {
    let cases: Vec<(TargetOs, TargetEnv, Option<&str>)> = vec![
        (TargetOs::Linux, TargetEnv::Gnu, Some("stdc++")),
        (TargetOs::Linux, TargetEnv::Msvc, Some("stdc++")),
        (TargetOs::Linux, TargetEnv::OtherEnv, Some("stdc++")),
        (TargetOs::Windows, TargetEnv::Gnu, Some("stdc++")),
        (TargetOs::Windows, TargetEnv::Msvc, None),
        (TargetOs::Windows, TargetEnv::OtherEnv, None),
        (TargetOs::MacOs, TargetEnv::Gnu, Some("c++")),
        (TargetOs::MacOs, TargetEnv::Msvc, Some("c++")),
        (TargetOs::MacOs, TargetEnv::OtherEnv, Some("c++")),
        (TargetOs::OtherOs, TargetEnv::Gnu, None),
        (TargetOs::OtherOs, TargetEnv::Msvc, None),
        (TargetOs::OtherOs, TargetEnv::OtherEnv, None),
    ];
    for (os, env, want) in cases {
        let got = runtime_dylib(&ToolchainProfile { os, env });
        assert_eq!(got, want.map(|s| s.to_string()), "profile {:?}/{:?}", os, env);
    }
}

#[test]
fn native_build_config_plain_generator() {
    let c = native_build_config(TargetEnv::Gnu);
    assert_eq!(c.source_dir, "clspv-ffi");
    assert!(c.release_profile);
    assert!(!c.reconfigure);
    assert_eq!(c.generator, None);
    let want = vec![
        ("CMAKE_POSITION_INDEPENDENT_CODE", "ON"),
        ("CMAKE_INSTALL_LIBDIR", "lib"),
        ("LLVM_ENABLE_TERMINFO", "OFF"),
        ("LLVM_ENABLE_ZSTD", "OFF"),
        ("LLVM_ENABLE_ZLIB", "OFF"),
    ];
    assert_eq!(c.defines.len(), want.len());
    for (got, (k, v)) in c.defines.iter().zip(want) {
        assert_eq!(got.0, k);
        assert_eq!(got.1, v);
    }
}

#[test]
fn native_build_config_msvc_overrides() {
    let c = native_build_config(TargetEnv::Msvc);
    assert_eq!(c.generator, Some("Ninja".to_string()));
    assert!(c.release_profile);
    assert!(!c.reconfigure);
    assert_eq!(c.defines.len(), 8);
    assert_eq!(c.defines[5].0, "CMAKE_OBJECT_PATH_MAX");
    assert_eq!(c.defines[5].1, "512");
    assert_eq!(c.defines[6].0, "CMAKE_C_FLAGS");
    assert_eq!(c.defines[6].1, "/Wv:18");
    assert_eq!(c.defines[7].0, "CMAKE_CXX_FLAGS");
    assert_eq!(c.defines[7].1, "/Wv:18");
}

#[test]
fn fetch_command_args() {
    let shallow = fetch_command(true);
    assert_eq!(shallow.workdir, "clspv-ffi/clspv");
    assert_eq!(
        shallow.args,
        vec!["utils/fetch_sources.py".to_string(), "--shallow".to_string()]
    );
    let full = fetch_command(false);
    assert_eq!(full.args, vec!["utils/fetch_sources.py".to_string()]);
}

#[test]
fn gate_build_step_exit_codes() {
    assert!(gate_build_step(BuildStep::FetchSources, 0).is_ok());
    assert!(gate_build_step(BuildStep::NativeBuild, 0).is_ok());
    assert_eq!(
        gate_build_step(BuildStep::FetchSources, 1),
        Err(BuildError::FetchFailed)
    );
    assert_eq!(
        gate_build_step(BuildStep::NativeBuild, -9),
        Err(BuildError::NativeBuildFailed)
    );
}

#[test]
fn built_search_path_appends_lib_dir() {
    assert_eq!(built_search_path("/build/out"), "/build/out/lib");
    assert_eq!(built_search_path(""), "/lib");
}

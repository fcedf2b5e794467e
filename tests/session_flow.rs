use wasmasc::{
    AscPlugin, BuildAction, BuildConfig, BuildEvent, BuildResult, BuildSession,
    OptimizationLevel, PluginError, ProjectView, WasmBuilder,
};

fn names(items: &[&str]) -> Vec<String> {
    items.iter().map(|s| s.to_string()).collect()
}

fn config(level: OptimizationLevel) -> BuildConfig {
    BuildConfig {
        project_path: "/proj".to_string(),
        output_dir: "/out".to_string(),
        optimization_level: level,
        verbose: false,
        watch: false,
    }
}

fn root_view(root: &[&str], assembly: &[&str]) -> ProjectView {
    ProjectView {
        is_dir: true,
        root: names(root),
        assembly: names(assembly),
        src: vec![],
        manifest: None,
    }
}

fn expect_probe(a: &BuildAction, tool: &str) {
    match a {
        BuildAction::ProbeTool { tool: t } => assert_eq!(t, tool),
        other => panic!("expected a probe of {tool}, got {other:?}"),
    }
}

fn finish(a: BuildAction) -> Result<BuildResult, PluginError> {
    match a {
        BuildAction::Finish { result } => result,
        other => panic!("expected the end of the build, got {other:?}"),
    }
}

fn start(level: OptimizationLevel) -> (BuildSession, BuildAction) {
    let (s, a) = AscPlugin::new().build(&config(level));
    match &a {
        BuildAction::InspectProject { path } => assert_eq!(path, "/proj"),
        other => panic!("expected a look at the project, got {other:?}"),
    }
    (s, a)
}

/// Runs the direct compiler strategy from the probe of `asc` to its end.
fn compile_directly(s: BuildSession, level: OptimizationLevel) -> (BuildSession, BuildAction) {
    let (s, a) = s.step(BuildEvent::Tool(true));
    assert!(matches!(a, BuildAction::InspectProject { .. }));
    let (s, a) = s.step(BuildEvent::Project(root_view(&["assembly"], &["index.ts"])));
    match &a {
        BuildAction::CreateDir { path } => assert_eq!(path, "/out"),
        other => panic!("expected the output directory, got {other:?}"),
    }
    let (s, a) = s.step(BuildEvent::DirCreated(true));
    let mut expected = names(&[
        "/proj/assembly/index.ts",
        "--target",
        "release",
        "--outFile",
        "/out/index.wasm",
    ]);
    expected.extend(match level {
        OptimizationLevel::Debug => names(&["--debug"]),
        OptimizationLevel::Release => names(&["--optimize"]),
        OptimizationLevel::Size => names(&["--optimize", "--shrinkLevel", "2"]),
    });
    match &a {
        BuildAction::Run { program, args, cwd, .. } => {
            assert_eq!(program, "asc");
            assert_eq!(args, &expected);
            assert_eq!(cwd, "/proj");
        }
        other => panic!("expected the compiler to run, got {other:?}"),
    }
    let (s, a) = s.step(BuildEvent::Ran { success: true, stderr: String::new() });
    match &a {
        BuildAction::CheckExists { path } => assert_eq!(path, "/out/index.wasm"),
        other => panic!("expected a check of the artifact, got {other:?}"),
    }
    s.step(BuildEvent::Exists(true))
}

#[test]
fn manager_failure_falls_back_to_compiler() {
    let (s, _) = start(OptimizationLevel::Release);
    let (s, a) = s.step(BuildEvent::Project(root_view(&["package.json", "yarn.lock"], &[])));
    expect_probe(&a, "bun");
    let (s, a) = s.step(BuildEvent::Tool(false));
    expect_probe(&a, "pnpm");
    let (s, a) = s.step(BuildEvent::Tool(true));
    expect_probe(&a, "yarn");
    let (s, a) = s.step(BuildEvent::Tool(true));
    match &a {
        BuildAction::Run { program, args, .. } => {
            assert_eq!(program, "yarn");
            assert_eq!(args, &names(&["build"]));
        }
        other => panic!("expected yarn to run, got {other:?}"),
    }
    let (s, a) = s.step(BuildEvent::Ran { success: false, stderr: "script failed".to_string() });
    expect_probe(&a, "asc");
    let (s, a) = compile_directly(s, OptimizationLevel::Release);
    assert!(s.is_finished());
    let result = finish(a).expect("the fallback build succeeds");
    assert_eq!(result.wasm_path, "/out/index.wasm");
    assert_eq!(result.js_path, None);
    assert!(result.additional_files.is_empty());
    assert!(!result.is_wasm_bindgen);
}

#[test]
fn first_output_is_copied() {
    let (s, _) = start(OptimizationLevel::Release);
    let (s, a) = s.step(BuildEvent::Project(root_view(&["package.json"], &[])));
    expect_probe(&a, "bun");
    let (s, _) = s.step(BuildEvent::Tool(false));
    let (s, _) = s.step(BuildEvent::Tool(false));
    let (s, a) = s.step(BuildEvent::Tool(false));
    expect_probe(&a, "npm");
    let (s, a) = s.step(BuildEvent::Tool(true));
    match &a {
        BuildAction::Run { program, args, .. } => {
            assert_eq!(program, "npm");
            assert_eq!(args, &names(&["run", "build"]));
        }
        other => panic!("expected npm to run, got {other:?}"),
    }
    let (s, a) = s.step(BuildEvent::Ran { success: true, stderr: String::new() });
    match &a {
        BuildAction::ListDirs { dirs } => assert_eq!(
            dirs,
            &names(&["/proj/build", "/proj/dist", "/proj/out", "/proj/target", "/proj"])
        ),
        other => panic!("expected the output listings, got {other:?}"),
    }
    let listings = vec![
        names(&["notes.txt"]),
        names(&["second.wasm", "third.wasm"]),
        vec![],
        names(&["fourth.wasm"]),
        names(&["root.wasm"]),
    ];
    let (s, a) = s.step(BuildEvent::Listed(listings));
    match &a {
        BuildAction::CopyFile { from, to } => {
            assert_eq!(from, "/proj/dist/second.wasm");
            assert_eq!(to, "/out/second.wasm");
        }
        other => panic!("expected one copy, got {other:?}"),
    }
    let (s, a) = s.step(BuildEvent::Copied);
    assert!(s.is_finished());
    let result = finish(a).expect("the package build succeeds");
    assert_eq!(result.wasm_path, "/out/second.wasm");
}

#[test]
fn bun_needs_its_lockfile() {
    let (s, _) = start(OptimizationLevel::Release);
    let (s, _) = s.step(BuildEvent::Project(root_view(&["package.json", "bun.lockb"], &[])));
    let (_, a) = s.step(BuildEvent::Tool(true));
    match &a {
        BuildAction::Run { program, args, .. } => {
            assert_eq!(program, "bun");
            assert_eq!(args, &names(&["run", "build"]));
        }
        other => panic!("expected bun to run, got {other:?}"),
    }
}

#[test]
fn no_output_found_falls_back() {
    let (s, _) = start(OptimizationLevel::Release);
    let (s, _) = s.step(BuildEvent::Project(root_view(&["package.json", "pnpm-lock.yaml"], &[])));
    let (s, _) = s.step(BuildEvent::Tool(false));
    let (s, a) = s.step(BuildEvent::Tool(true));
    assert!(matches!(a, BuildAction::Run { .. }));
    let (s, _) = s.step(BuildEvent::Ran { success: true, stderr: String::new() });
    let (s, a) = s.step(BuildEvent::Listed(vec![names(&["x.js"])]));
    expect_probe(&a, "asc");
    let (_, a) = s.step(BuildEvent::Tool(false));
    assert_eq!(
        finish(a),
        Err(PluginError::CompileToolNotFound { tool: "asc or npm/yarn".to_string() })
    );
}

#[test]
fn no_manifest_and_no_compiler() {
    let (s, _) = start(OptimizationLevel::Release);
    let (s, a) = s.step(BuildEvent::Project(root_view(&["index.ts"], &[])));
    expect_probe(&a, "asc");
    let (s, a) = s.step(BuildEvent::Tool(false));
    assert!(s.is_finished());
    assert_eq!(
        finish(a),
        Err(PluginError::CompileToolNotFound { tool: "asc".to_string() })
    );
}

#[test]
fn optimization_flags() {
    for level in [OptimizationLevel::Debug, OptimizationLevel::Release, OptimizationLevel::Size] {
        let (s, _) = start(level);
        let (s, _) = s.step(BuildEvent::Project(root_view(&[], &[])));
        let (_, a) = compile_directly(s, level);
        assert!(finish(a).is_ok());
    }
}

#[test]
fn compiler_failures() {
    let (s, _) = start(OptimizationLevel::Release);
    let (s, _) = s.step(BuildEvent::Project(root_view(&[], &[])));
    let (s, _) = s.step(BuildEvent::Tool(true));
    let (s, _) = s.step(BuildEvent::Project(root_view(&["main.ts"], &[])));
    let (s, _) = s.step(BuildEvent::DirCreated(true));
    let (_, a) = s.step(BuildEvent::Ran { success: false, stderr: "ERROR TS1005".to_string() });
    assert_eq!(
        finish(a),
        Err(PluginError::CompilationFailed { reason: "ERROR TS1005".to_string() })
    );

    let (s, _) = start(OptimizationLevel::Release);
    let (s, _) = s.step(BuildEvent::Project(root_view(&[], &[])));
    let (s, _) = s.step(BuildEvent::Tool(true));
    let (s, _) = s.step(BuildEvent::Project(root_view(&["main.ts"], &[])));
    let (s, _) = s.step(BuildEvent::DirCreated(true));
    let (s, a) = s.step(BuildEvent::Ran { success: true, stderr: String::new() });
    match &a {
        BuildAction::CheckExists { path } => assert_eq!(path, "/out/main.wasm"),
        other => panic!("expected a check, got {other:?}"),
    }
    let (_, a) = s.step(BuildEvent::Exists(false));
    assert_eq!(
        finish(a),
        Err(PluginError::CompilationFailed { reason: "WASM file was not created".to_string() })
    );

    let (s, _) = start(OptimizationLevel::Release);
    let (s, _) = s.step(BuildEvent::Project(root_view(&[], &[])));
    let (s, _) = s.step(BuildEvent::Tool(true));
    let (s, _) = s.step(BuildEvent::Project(root_view(&["main.ts"], &[])));
    let (s, _) = s.step(BuildEvent::DirCreated(true));
    let (_, a) = s.step(BuildEvent::SpawnFailed("not found".to_string()));
    assert_eq!(finish(a), Err(PluginError::Io("not found".to_string())));
}

#[test]
fn entry_and_output_failures() {
    let (s, _) = start(OptimizationLevel::Release);
    let (s, _) = s.step(BuildEvent::Project(root_view(&[], &[])));
    let (s, _) = s.step(BuildEvent::Tool(true));
    let (_, a) = s.step(BuildEvent::Project(root_view(&["a.js"], &[])));
    match finish(a) {
        Err(PluginError::MissingEntryFile { candidates }) => assert_eq!(candidates.len(), 6),
        other => panic!("expected a missing entry, got {other:?}"),
    }

    let (s, _) = start(OptimizationLevel::Release);
    let (s, _) = s.step(BuildEvent::Project(root_view(&[], &[])));
    let (s, _) = s.step(BuildEvent::Tool(true));
    let (s, _) = s.step(BuildEvent::Project(root_view(&["app.ts"], &[])));
    let (_, a) = s.step(BuildEvent::DirCreated(false));
    assert_eq!(
        finish(a),
        Err(PluginError::OutputDirectoryCreationFailed { path: "/out".to_string() })
    );
}

#[test]
fn unexpected_answer_ends_the_build() {
    let (s, _) = start(OptimizationLevel::Release);
    let (s, a) = s.step(BuildEvent::Tool(true));
    assert!(s.is_finished());
    assert_eq!(
        finish(a),
        Err(PluginError::Io("unexpected answer for the current build stage".to_string()))
    );
}

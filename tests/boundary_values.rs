use wasmasc::{
    BuildConfig, BuildResult, ForeignOutcome, OptimizationLevel, PluginError,
};

#[test]
fn config_round_trip() {
    for level in [OptimizationLevel::Debug, OptimizationLevel::Release, OptimizationLevel::Size] {
        let c = BuildConfig {
            project_path: "p".to_string(),
            output_dir: "o".to_string(),
            optimization_level: level,
            verbose: true,
            watch: false,
        };
        let back = BuildConfig::from_foreign(
            c.project_path.clone(),
            c.output_dir.clone(),
            c.foreign_level(),
            c.verbose,
            c.watch,
        );
        assert_eq!(back, c);
    }
}

#[test]
fn level_bytes() {
    assert_eq!(OptimizationLevel::from_byte(0), OptimizationLevel::Debug);
    assert_eq!(OptimizationLevel::from_byte(1), OptimizationLevel::Release);
    assert_eq!(OptimizationLevel::from_byte(2), OptimizationLevel::Size);
    assert_eq!(OptimizationLevel::from_byte(3), OptimizationLevel::Release);
    assert_eq!(OptimizationLevel::from_byte(255), OptimizationLevel::Release);
    assert_eq!(OptimizationLevel::Size.to_byte(), 2);
    let c = BuildConfig::from_foreign("a".to_string(), "b".to_string(), 9, false, true);
    assert_eq!(c.optimization_level, OptimizationLevel::Release);
    assert!(c.watch);
}

#[test]
fn outcome_flattening() {
    let ok = ForeignOutcome::from_result(Ok(BuildResult {
        wasm_path: "/out/a.wasm".to_string(),
        js_path: None,
        additional_files: vec![],
        is_wasm_bindgen: false,
    }));
    assert!(ok.success);
    assert_eq!(ok.wasm_path.as_deref(), Some("/out/a.wasm"));
    assert!(ok.error.is_none());

    let err = ForeignOutcome::from_result(Err(PluginError::CompileToolNotFound {
        tool: "asc".to_string(),
    }));
    assert!(!err.success);
    assert!(err.wasm_path.is_none());
    assert_eq!(
        err.error,
        Some(PluginError::CompileToolNotFound { tool: "asc".to_string() })
    );
}

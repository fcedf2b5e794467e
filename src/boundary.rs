use vstd::prelude::*;

use crate::model::{
    byte_of_level, level_of_byte, BuildConfig, BuildResult, OptimizationLevel, PluginError,
    PluginResult,
};

verus! {

/// The configuration a foreign configuration record describes.
pub open spec fn config_from_foreign(
    project_path: String,
    output_dir: String,
    optimization_level: u8,
    verbose: bool,
    watch: bool,
) -> BuildConfig {
    BuildConfig {
        project_path,
        output_dir,
        optimization_level: level_of_byte(optimization_level),
        verbose,
        watch,
    }
}

impl BuildConfig {
    /// The configuration of a foreign record, whose strings the caller has
    /// already copied out.
    pub fn from_foreign(
        project_path: String,
        output_dir: String,
        optimization_level: u8,
        verbose: bool,
        watch: bool,
    ) -> (r: BuildConfig)
        ensures
            r == config_from_foreign(project_path, output_dir, optimization_level, verbose, watch),
    {
        BuildConfig {
            project_path,
            output_dir,
            optimization_level: OptimizationLevel::from_byte(optimization_level),
            verbose,
            watch,
        }
    }

    /// The byte that stands for this configuration's level in a foreign record.
    pub fn foreign_level(&self) -> (r: u8)
        ensures
            r == byte_of_level(self.optimization_level),
    {
        self.optimization_level.to_byte()
    }
}

/// A configuration sent through a foreign record comes back field for field;
/// a byte out of range reads as `Release`.
pub proof fn lemma_config_round_trip(c: BuildConfig, b: u8)
    ensures
        config_from_foreign(
            c.project_path,
            c.output_dir,
            byte_of_level(c.optimization_level),
            c.verbose,
            c.watch,
        ) == c,
        b > 2 ==> level_of_byte(b) == OptimizationLevel::Release,
{
}

/// The fields of a foreign result record, with owned values in place of
/// pointers: on success the artifact paths, on failure the error.
#[derive(Debug)]
pub struct ForeignOutcome {
    pub wasm_path: Option<String>,
    pub js_path: Option<String>,
    pub is_wasm_bindgen: bool,
    pub success: bool,
    pub error: Option<PluginError>,
}

impl ForeignOutcome {
    /// Flattens a build result: exactly one of the artifact path and the
    /// error is present, as `success` says.
    pub fn from_result(r: PluginResult<BuildResult>) -> (o: ForeignOutcome)
        ensures
            o.success == r is Ok,
            o.success ==> o.wasm_path == Some(r->Ok_0.wasm_path) && o.js_path == r->Ok_0.js_path
                && o.is_wasm_bindgen == r->Ok_0.is_wasm_bindgen && o.error is None,
            !o.success ==> o.wasm_path is None && o.js_path is None && !o.is_wasm_bindgen
                && o.error == Some(r->Err_0),
    {
        match r {
            Ok(result) => ForeignOutcome {
                wasm_path: Some(result.wasm_path),
                js_path: result.js_path,
                is_wasm_bindgen: result.is_wasm_bindgen,
                success: true,
                error: None,
            },
            Err(e) => ForeignOutcome {
                wasm_path: None,
                js_path: None,
                is_wasm_bindgen: false,
                success: false,
                error: Some(e),
            },
        }
    }
}

} // verus!

use vstd::prelude::*;

verus! {

/// Every failure a build operation can report.
#[derive(Debug, Clone, PartialEq, Eq)]
pub enum PluginError {
    /// The external tool ran and failed, or produced no usable artifact.
    CompilationFailed { reason: String },
    /// No viable toolchain executable was found.
    CompileToolNotFound { tool: String },
    /// The project path is not a directory.
    InvalidProjectStructure { reason: String },
    /// No recognised entry point; `candidates` lists the paths looked for.
    MissingEntryFile { candidates: Vec<String> },
    /// The output directory could not be created.
    OutputDirectoryCreationFailed { path: String },
    /// A filesystem or process-spawn failure, by its description.
    Io(String),
}

pub type PluginResult<T> = Result<T, PluginError>;

/// Where an external plugin comes from.
#[derive(Debug, Clone, PartialEq, Eq)]
pub enum PluginSource {
    CratesIo { name: String, version: String },
    Git { url: String, branch: Option<String> },
    Local { path: String },
}

#[derive(Debug, Clone, Copy, PartialEq, Eq, Structural)]
pub enum PluginType {
    Builtin,
    External,
}

#[derive(Debug, Clone, PartialEq, Eq)]
pub struct PluginCapabilities {
    pub compile_wasm: bool,
    pub compile_webapp: bool,
    pub live_reload: bool,
    pub optimization: bool,
    pub custom_targets: Vec<String>,
}

#[derive(Debug, Clone, PartialEq, Eq)]
pub struct PluginInfo {
    pub name: String,
    pub version: String,
    pub description: String,
    pub author: String,
    pub extensions: Vec<String>,
    pub entry_files: Vec<String>,
    pub plugin_type: PluginType,
    pub source: Option<PluginSource>,
    pub dependencies: Vec<String>,
    pub capabilities: PluginCapabilities,
}

#[derive(Debug, Clone, Copy, PartialEq, Eq, Structural)]
pub enum OptimizationLevel {
    Debug,
    Release,
    Size,
}

/// The level a foreign byte stands for: anything out of range means `Release`.
pub open spec fn level_of_byte(b: u8) -> OptimizationLevel {
    if b == 0 {
        OptimizationLevel::Debug
    } else if b == 2 {
        OptimizationLevel::Size
    } else {
        OptimizationLevel::Release
    }
}

/// The foreign byte of a level.
pub open spec fn byte_of_level(l: OptimizationLevel) -> u8 {
    match l {
        OptimizationLevel::Debug => 0,
        OptimizationLevel::Release => 1,
        OptimizationLevel::Size => 2,
    }
}

impl OptimizationLevel {
    pub fn from_byte(b: u8) -> (r: OptimizationLevel)
        ensures
            r == level_of_byte(b),
    {
        if b == 0 {
            OptimizationLevel::Debug
        } else if b == 2 {
            OptimizationLevel::Size
        } else {
            OptimizationLevel::Release
        }
    }

    pub fn to_byte(&self) -> (r: u8)
        ensures
            r == byte_of_level(*self),
    {
        match self {
            OptimizationLevel::Debug => 0,
            OptimizationLevel::Release => 1,
            OptimizationLevel::Size => 2,
        }
    }
}

#[derive(Debug, Clone, PartialEq, Eq)]
pub struct BuildConfig {
    pub project_path: String,
    pub output_dir: String,
    pub optimization_level: OptimizationLevel,
    pub verbose: bool,
    pub watch: bool,
}

#[derive(Debug, Clone, PartialEq, Eq)]
pub struct BuildResult {
    pub wasm_path: String,
    pub js_path: Option<String>,
    pub additional_files: Vec<String>,
    pub is_wasm_bindgen: bool,
}

} // verus!

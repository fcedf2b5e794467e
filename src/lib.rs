//! Build orchestration for AssemblyScript projects: project detection,
//! entry-file resolution, toolchain selection with fallback, and the plain
//! values that cross the foreign boundary.
//!
//! The library does no I/O. Its host hands it what the filesystem shows (a
//! `ProjectView`) and drives a build through a `BuildSession`: each step
//! names one action (probe a tool, run a program, list directories, copy a
//! file, ...) and takes the host's answer to it.

pub mod model;
pub mod paths;
pub mod project;
pub mod session;
pub mod plugin;
pub mod asc;
pub mod boundary;

pub use model::{
    BuildConfig, BuildResult, OptimizationLevel, PluginCapabilities, PluginError, PluginInfo,
    PluginResult, PluginSource, PluginType,
};
pub use paths::{CommandExecutor, PathResolver};
pub use project::ProjectView;
pub use session::{BuildAction, BuildEvent, BuildSession, Stage};
pub use plugin::{Plugin, WasmBuilder};
pub use asc::{create_plugin, AscPlugin, PLUGIN_VERSION};
pub use boundary::ForeignOutcome;

use vstd::prelude::*;

use crate::model::{BuildConfig, PluginInfo, PluginResult};
use crate::project::ProjectView;
use crate::session::{BuildAction, BuildSession};

verus! {

/// A builder that validates and compiles one kind of project. Filesystem
/// evidence comes in as a `ProjectView`; a build is a `BuildSession` whose
/// actions the host performs.
pub trait WasmBuilder {
    /// Whether the project looks like one this builder compiles.
    fn can_handle_project(&self, view: &ProjectView) -> (r: bool)
        ensures
            r == self.detection(*view),
    ;

    /// What this builder's detection accepts.
    spec fn detection(&self, view: ProjectView) -> bool;

    /// Starts a build of `config`.
    fn build(&self, config: &BuildConfig) -> (BuildSession, BuildAction);

    /// The executables a build needs, by name.
    fn required_tools(&self) -> Vec<String>;

    /// One description per required tool that is not installed; `installed[i]`
    /// answers for `required_tools()[i]`, and a missing answer means absent.
    fn check_dependencies(&self, installed: &Vec<bool>) -> Vec<String>;

    /// Checks that the project is a directory with an entry file.
    fn validate_project(&self, project_path: &str, view: &ProjectView) -> PluginResult<()>;

    /// The build-artifact directory to remove, if there is one.
    fn clean(&self, project_path: &str, view: &ProjectView) -> Option<String>;

    fn language_name(&self) -> &'static str;

    fn entry_file_candidates(&self) -> Vec<String>;

    fn supported_extensions(&self) -> Vec<String>;
}

/// A plugin: static metadata and a first filter on projects. Verus takes no
/// trait method that returns a trait object, so the factory of builders
/// (`get_builder`) and `clone_box` are inherent methods of each plugin.
pub trait Plugin {
    fn info(&self) -> &PluginInfo;

    /// A cheap first filter, run before any builder exists.
    fn can_handle_project(&self, view: &ProjectView) -> (r: bool)
        ensures
            r == self.first_filter(*view),
    ;

    /// What this plugin's first filter accepts.
    spec fn first_filter(&self, view: ProjectView) -> bool;
}

} // verus!

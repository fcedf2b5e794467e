use vstd::prelude::*;

use crate::model::{
    BuildConfig, PluginCapabilities, PluginError, PluginInfo, PluginResult, PluginSource,
    PluginType,
};
use crate::paths::{joined, listing_has, names_of, names_with_ext, names_with_extension, PathResolver};
use crate::plugin::{Plugin, WasmBuilder};
use crate::project::{
    entry_candidate_list, entry_of, first_candidate_from, is_missing_entry, listing_contains,
    locate_entry, manifest_mentions_compiler, mentions_compiler, ProjectView,
};
use crate::session::{starts, BuildAction, BuildSession};

verus! {

/// The version this crate describes itself with.
pub const PLUGIN_VERSION: &'static str = "0.1.0";

/// `info` is the AssemblyScript plugin's metadata at version `version`.
pub open spec fn describes(info: PluginInfo, version: Seq<char>) -> bool {
    &&& info.name@ == "asc"@
    &&& info.version@ == version
    &&& info.description@ == "AssemblyScript WebAssembly compiler"@
    &&& info.author@ == "Wasmrun Team"@
    &&& names_of(info.extensions@) == seq!["ts"@]
    &&& names_of(info.entry_files@) == seq!["assembly/index.ts"@, "index.ts"@, "package.json"@]
    &&& info.plugin_type == PluginType::External
    &&& match info.source {
        Some(PluginSource::CratesIo { name, version: v }) => name@ == "wasmasc"@ && v@ == version,
        _ => false,
    }
    &&& info.dependencies@.len() == 0
    &&& info.capabilities.compile_wasm
    &&& !info.capabilities.compile_webapp
    &&& info.capabilities.live_reload
    &&& info.capabilities.optimization
    &&& names_of(info.capabilities.custom_targets@) == seq!["wasm"@]
}

/// The plugin's cheap filter: the manifest mentions the compiler, or
/// `assembly/` holds `index.ts` or `main.ts`.
pub open spec fn plugin_accepts(v: ProjectView) -> bool {
    manifest_mentions_compiler(v) || listing_has(v.assembly@, "index.ts"@) || listing_has(
        v.assembly@,
        "main.ts"@,
    )
}

/// The builder's detection, in priority order: the manifest mentions the
/// compiler; an exact entry candidate is present; the root holds a
/// TypeScript source.
pub open spec fn builder_accepts(v: ProjectView) -> bool {
    manifest_mentions_compiler(v) || first_candidate_from(v, 0) is Some || names_with_extension(
        names_of(v.root@),
        "ts"@,
    ).len() > 0
}

/// The tools a build needs.
pub open spec fn required_tools() -> Seq<Seq<char>> {
    seq!["asc"@, "node"@]
}

/// What to tell about missing tool `i`.
pub open spec fn missing_note(i: int) -> Seq<char> {
    if i == 0 {
        "asc (AssemblyScript compiler - install with: npm install -g asc)"@
    } else {
        "node (Node.js runtime)"@
    }
}

/// The answer for tool `i`; a missing answer means absent.
pub open spec fn answered_installed(installed: Seq<bool>, i: int) -> bool {
    i < installed.len() && installed[i]
}

/// Notes on the missing tools among the first `n`, in order.
pub open spec fn missing_notes(installed: Seq<bool>, n: int) -> Seq<Seq<char>>
    decreases n,
{
    if n <= 0 {
        seq![]
    } else if answered_installed(installed, n - 1) {
        missing_notes(installed, n - 1)
    } else {
        missing_notes(installed, n - 1).push(missing_note(n - 1))
    }
}

/// The directory `clean` removes, when the root lists it.
pub open spec fn clean_target(project: Seq<char>, v: ProjectView) -> Option<Seq<char>> {
    if listing_has(v.root@, "build"@) {
        Some(joined(project, "build"@))
    } else {
        None
    }
}

/// The builder and plugin for AssemblyScript projects.
#[derive(Debug)]
pub struct AscPlugin {
    info: PluginInfo,
}

fn strings(items: &[&str]) -> (r: Vec<String>)
    ensures
        r@.len() == items@.len(),
        forall|i: int| 0 <= i < items@.len() ==> #[trigger] r@[i]@ == items@[i]@,
{
    let mut r: Vec<String> = Vec::new();
    let mut i: usize = 0;
    while i < items.len()
        invariant
            i <= items@.len(),
            r@.len() == i,
            forall|j: int| 0 <= j < i ==> #[trigger] r@[j]@ == items@[j]@,
        decreases items@.len() - i,
    {
        r.push(String::from_str(items[i]));
        i = i + 1;
    }
    r
}

impl AscPlugin {
    /// The plugin at this crate's own version.
    pub fn new() -> (r: AscPlugin)
        ensures
            describes(r.info_spec(), PLUGIN_VERSION@),
    {
        AscPlugin::with_version(PLUGIN_VERSION)
    }

    /// The plugin describing itself with `version`.
    pub fn with_version(version: &str) -> (r: AscPlugin)
        ensures
            describes(r.info_spec(), version@),
    {
        let extensions = strings(&["ts"]);
        let entry_files = strings(&["assembly/index.ts", "index.ts", "package.json"]);
        let custom_targets = strings(&["wasm"]);
        assert(names_of(extensions@) =~= seq!["ts"@]);
        assert(names_of(entry_files@) =~= seq!["assembly/index.ts"@, "index.ts"@, "package.json"@]);
        assert(names_of(custom_targets@) =~= seq!["wasm"@]);
        let info = PluginInfo {
            name: String::from_str("asc"),
            version: String::from_str(version),
            description: String::from_str("AssemblyScript WebAssembly compiler"),
            author: String::from_str("Wasmrun Team"),
            extensions,
            entry_files,
            plugin_type: PluginType::External,
            source: Some(
                PluginSource::CratesIo {
                    name: String::from_str("wasmasc"),
                    version: String::from_str(version),
                },
            ),
            dependencies: Vec::new(),
            capabilities: PluginCapabilities {
                compile_wasm: true,
                compile_webapp: false,
                live_reload: true,
                optimization: true,
                custom_targets,
            },
        };
        AscPlugin { info }
    }

    /// The plugin's metadata.
    pub closed spec fn info_spec(&self) -> PluginInfo {
        self.info
    }

    /// The version this plugin describes itself with.
    pub open spec fn version(&self) -> Seq<char> {
        self.info_spec().version@
    }

    /// Whether the manifest mentions the compiler.
    pub fn is_asc_project(&self, view: &ProjectView) -> (r: bool)
        ensures
            r == manifest_mentions_compiler(*view),
    {
        mentions_compiler(view)
    }

    /// The project's entry file: the first exact candidate present, else the
    /// first TypeScript source in `assembly/`, `src/`, then the root.
    pub fn find_entry_file(&self, project_path: &str, view: &ProjectView) -> (r: PluginResult<String>)
        ensures
            match entry_of(project_path@, *view) {
                Some(found) => r is Ok && r->Ok_0@ == found.0,
                None => r is Err && is_missing_entry(r->Err_0),
            },
    {
        match locate_entry(project_path, view) {
            Some((path, _)) => Ok(path),
            None => Err(PluginError::MissingEntryFile { candidates: entry_candidate_list() }),
        }
    }

    /// The plugin's filter: `Plugin::can_handle_project`.
    pub fn accepts_quickly(&self, view: &ProjectView) -> (r: bool)
        ensures
            r == plugin_accepts(*view),
    {
        mentions_compiler(view) || listing_contains(&view.assembly, "index.ts")
            || listing_contains(&view.assembly, "main.ts")
    }

    /// The builder's detection: `WasmBuilder::can_handle_project`.
    pub fn detects(&self, view: &ProjectView) -> (r: bool)
        ensures
            r == builder_accepts(*view),
    {
        if mentions_compiler(view) {
            return true;
        }
        if crate::project::has_candidate(view) {
            return true;
        }
        names_with_ext(&view.root, "ts").len() > 0
    }

    /// A fresh builder with the same metadata.
    pub fn get_builder(&self) -> Box<dyn WasmBuilder> {
        Box::new(AscPlugin::with_version(self.info.version.as_str()))
    }

    /// An independent copy of this builder.
    pub fn clone_box(&self) -> Box<dyn WasmBuilder> {
        Box::new(self.duplicate())
    }

    /// An independent plugin at the same version.
    pub fn duplicate(&self) -> (r: AscPlugin)
        ensures
            describes(r.info_spec(), self.version()),
    {
        AscPlugin::with_version(self.info.version.as_str())
    }
}

impl Plugin for AscPlugin {
    fn info(&self) -> (r: &PluginInfo)
        ensures
            *r == self.info_spec(),
    {
        &self.info
    }

    fn can_handle_project(&self, view: &ProjectView) -> bool {
        self.accepts_quickly(view)
    }

    open spec fn first_filter(&self, view: ProjectView) -> bool {
        plugin_accepts(view)
    }
}

impl WasmBuilder for AscPlugin {
    fn can_handle_project(&self, view: &ProjectView) -> bool {
        self.detects(view)
    }

    open spec fn detection(&self, view: ProjectView) -> bool {
        builder_accepts(view)
    }

    fn build(&self, config: &BuildConfig) -> (r: (BuildSession, BuildAction))
        ensures
            starts(r.0, r.1, *config),
    {
        BuildSession::start(config)
    }

    fn required_tools(&self) -> (r: Vec<String>)
        ensures
            names_of(r@) == required_tools(),
    {
        let r = strings(&["asc", "node"]);
        assert(names_of(r@) =~= required_tools());
        r
    }

    fn check_dependencies(&self, installed: &Vec<bool>) -> (r: Vec<String>)
        ensures
            names_of(r@) == missing_notes(installed@, 2),
    {
        let mut missing: Vec<String> = Vec::new();
        assert(missing_notes(installed@, 0) =~= Seq::<Seq<char>>::empty());
        if !(installed.len() > 0 && installed[0]) {
            missing.push(String::from_str("asc (AssemblyScript compiler - install with: npm install -g asc)"));
        }
        assert(names_of(missing@) =~= missing_notes(installed@, 1));
        let ghost first = missing@;
        if !(installed.len() > 1 && installed[1]) {
            missing.push(String::from_str("node (Node.js runtime)"));
            assert(names_of(missing@) =~= names_of(first).push(missing_note(1)));
        }
        missing
    }

    fn validate_project(&self, project_path: &str, view: &ProjectView) -> (r: PluginResult<()>)
        ensures
            !view.is_dir ==> match r {
                Err(PluginError::InvalidProjectStructure { reason }) => reason@
                    == "Directory does not exist: "@ + project_path@,
                _ => false,
            },
            view.is_dir && entry_of(project_path@, *view) is Some ==> r is Ok,
            view.is_dir && entry_of(project_path@, *view) is None ==> r is Err && is_missing_entry(
                r->Err_0,
            ),
    {
        PathResolver::validate_directory_exists(project_path, view.is_dir)?;
        match self.find_entry_file(project_path, view) {
            Ok(_) => Ok(()),
            Err(e) => Err(e),
        }
    }

    fn clean(&self, project_path: &str, view: &ProjectView) -> (r: Option<String>)
        ensures
            match clean_target(project_path@, *view) {
                Some(dir) => r is Some && r->0@ == dir,
                None => r is None,
            },
    {
        if listing_contains(&view.root, "build") {
            Some(PathResolver::join_paths(project_path, "build"))
        } else {
            None
        }
    }

    fn language_name(&self) -> (r: &'static str)
        ensures
            r@ == "AssemblyScript"@,
    {
        "AssemblyScript"
    }

    fn entry_file_candidates(&self) -> (r: Vec<String>)
        ensures
            names_of(r@) == seq![
                "assembly/index.ts"@,
                "assembly/main.ts"@,
                "package.json"@,
                "assembly/package.json"@,
            ],
    {
        let r = strings(&["assembly/index.ts", "assembly/main.ts", "package.json", "assembly/package.json"]);
        assert(names_of(r@) =~= seq![
            "assembly/index.ts"@,
            "assembly/main.ts"@,
            "package.json"@,
            "assembly/package.json"@,
        ]);
        r
    }

    fn supported_extensions(&self) -> (r: Vec<String>)
        ensures
            names_of(r@) == seq!["ts"@],
    {
        let r = strings(&["ts"]);
        assert(names_of(r@) =~= seq!["ts"@]);
        r
    }
}

impl Default for AscPlugin {
    fn default() -> (r: AscPlugin)
        ensures
            describes(r.info_spec(), PLUGIN_VERSION@),
    {
        AscPlugin::new()
    }
}

/// The AssemblyScript plugin behind the plugin interface.
pub fn create_plugin() -> Box<dyn Plugin> {
    Box::new(AscPlugin::new())
}

/// A project whose manifest does not mention the compiler and that has no
/// entry file is accepted neither by the builder nor by the plugin.
pub proof fn lemma_unrelated_project_rejected(project: Seq<char>, v: ProjectView)
    requires
        !manifest_mentions_compiler(v),
        entry_of(project, v) is None,
    ensures
        !builder_accepts(v),
        !plugin_accepts(v),
{
    crate::project::lemma_no_entry(project, v);
    assert(!crate::project::candidate_present(v, 0));
    assert(!crate::project::candidate_present(v, 1));
    assert(crate::project::sources_in(v, 2).len() == 0);
}

/// With every required tool missing there is one note per tool, in order;
/// with every tool present there is none.
pub proof fn lemma_dependency_report(installed: Seq<bool>)
    ensures
        (forall|i: int| 0 <= i < installed.len() ==> !#[trigger] installed[i]) ==> missing_notes(
            installed,
            2,
        ) == seq![missing_note(0), missing_note(1)],
        installed.len() >= 2 && installed[0] && installed[1] ==> missing_notes(installed, 2).len()
            == 0,
{
    reveal_with_fuel(missing_notes, 3);
    assert(missing_notes(installed, 0) =~= Seq::<Seq<char>>::empty());
    if forall|i: int| 0 <= i < installed.len() ==> !#[trigger] installed[i] {
        assert(!answered_installed(installed, 0));
        assert(!answered_installed(installed, 1));
        assert(missing_notes(installed, 2) =~= seq![missing_note(0), missing_note(1)]);
    }
}

/// Without a build-artifact directory `clean` has nothing to remove, and it
/// stays so however often it runs on that project.
pub proof fn lemma_clean_without_artifacts(project: Seq<char>, v: ProjectView)
    requires
        !listing_has(v.root@, "build"@),
    ensures
        clean_target(project, v) is None,
{
}

} // verus!

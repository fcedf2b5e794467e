use vstd::prelude::*;

use crate::model::{BuildConfig, BuildResult, OptimizationLevel, PluginError};
use crate::paths::{
    has_extension, joined, joined_all, listing_has, names_of, names_with_extension, PathResolver,
};
use crate::project::{entry_of, has_manifest, is_missing_entry, listing_contains, locate_entry, ProjectView};

verus! {

/// What a build asks its host to do next.
#[derive(Debug)]
pub enum BuildAction {
    /// Look at the project directory; answer with `Project`.
    InspectProject { path: String },
    /// Run `<tool> --version`; answer with `Tool`, true when it exits successfully.
    ProbeTool { tool: String },
    /// Run `program` with `args` in `cwd`; answer with `Ran` or `SpawnFailed`.
    Run { program: String, args: Vec<String>, cwd: String, verbose: bool },
    /// List each directory; answer with `Listed`, one listing per directory in order.
    ListDirs { dirs: Vec<String> },
    /// Create a directory and its parents; answer with `DirCreated`.
    CreateDir { path: String },
    /// Copy the file `from` to `to`; answer with `Copied`, `CopyMissing` or `CopyFailed`.
    CopyFile { from: String, to: String },
    /// Check whether a path exists; answer with `Exists`.
    CheckExists { path: String },
    /// The build is over with this outcome.
    Finish { result: Result<BuildResult, PluginError> },
}

/// The host's answer to the last action.
#[derive(Debug)]
pub enum BuildEvent {
    Project(ProjectView),
    Tool(bool),
    Ran { success: bool, stderr: String },
    SpawnFailed(String),
    Listed(Vec<Vec<String>>),
    DirCreated(bool),
    Copied,
    CopyMissing,
    CopyFailed(String),
    Exists(bool),
}

/// Where a build stands.
#[derive(Debug)]
pub enum Stage {
    /// Waiting for the first look at the project.
    Inspecting,
    /// Probing package manager `index` (bun, pnpm, yarn, npm).
    ProbingManager { index: usize },
    /// Package manager `index` runs the build script.
    RunningManager { index: usize },
    /// Waiting for the listings of the output directories.
    SearchingOutputs,
    /// Copying the found artifact to `to`.
    CopyingOutput { to: String },
    /// Probing the compiler; `after_manager` when the package manager failed.
    ProbingCompiler { after_manager: bool },
    /// Waiting for a fresh look at the project to find the entry file.
    Locating,
    /// Creating the output directory before compiling `entry`.
    CreatingOutput { entry: String, stem: String },
    /// The compiler runs and should write `wasm_file`.
    Compiling { wasm_file: String },
    /// Checking that `wasm_file` was written.
    Confirming { wasm_file: String },
    /// The build is over.
    Finished,
}

/// One build of one project, driven by the host through `step`.
#[derive(Debug)]
pub struct BuildSession {
    pub config: BuildConfig,
    pub stage: Stage,
    /// Root listing from the first look at the project.
    pub root: Vec<String>,
}

/// Package manager `i`, by priority.
pub open spec fn manager(i: int) -> Seq<char> {
    if i == 0 {
        "bun"@
    } else if i == 1 {
        "pnpm"@
    } else if i == 2 {
        "yarn"@
    } else {
        "npm"@
    }
}

/// The lockfile that selects package manager `i` (`npm` needs none).
pub open spec fn lockfile(i: int) -> Seq<char> {
    if i == 0 {
        "bun.lockb"@
    } else if i == 1 {
        "pnpm-lock.yaml"@
    } else {
        "yarn.lock"@
    }
}

/// Arguments that run the build script with package manager `i`.
pub open spec fn manager_args(i: int) -> Seq<Seq<char>> {
    if i == 2 {
        seq!["build"@]
    } else {
        seq!["run"@, "build"@]
    }
}

/// Output directory `d` searched after a package-manager build: `build`,
/// `dist`, `out`, `target`, then the project root.
pub open spec fn output_dir(project: Seq<char>, d: int) -> Seq<char> {
    if d == 0 {
        joined(project, "build"@)
    } else if d == 1 {
        joined(project, "dist"@)
    } else if d == 2 {
        joined(project, "out"@)
    } else if d == 3 {
        joined(project, "target"@)
    } else {
        project
    }
}

pub open spec fn output_dirs(project: Seq<char>) -> Seq<Seq<char>> {
    seq![
        output_dir(project, 0),
        output_dir(project, 1),
        output_dir(project, 2),
        output_dir(project, 3),
        output_dir(project, 4),
    ]
}

/// Names of WebAssembly files in listing `d`; an absent listing is empty.
pub open spec fn wasm_names(ls: Seq<Vec<String>>, d: int) -> Seq<Seq<char>> {
    if 0 <= d < ls.len() {
        names_with_extension(names_of(ls[d]@), "wasm"@)
    } else {
        seq![]
    }
}

/// The first output directory from `d` on whose listing holds a WebAssembly file.
pub open spec fn first_output_dir_from(ls: Seq<Vec<String>>, d: int) -> Option<int>
    decreases 5 - d,
{
    if d < 0 || d >= 5 {
        None
    } else if wasm_names(ls, d).len() > 0 {
        Some(d)
    } else {
        first_output_dir_from(ls, d + 1)
    }
}

/// Every WebAssembly file in the output directories from `d` on, directory
/// by directory, each in listing order.
pub open spec fn all_outputs_from(project: Seq<char>, ls: Seq<Vec<String>>, d: int) -> Seq<Seq<char>>
    decreases 5 - d,
{
    if d < 0 || d >= 5 {
        seq![]
    } else {
        joined_all(output_dir(project, d), wasm_names(ls, d)) + all_outputs_from(project, ls, d + 1)
    }
}

/// A file name without its three-character `.ts` extension.
pub open spec fn stem_of(name: Seq<char>) -> Seq<char> {
    name.subrange(0, name.len() - 3)
}

/// Where the compiler writes the artifact for entry stem `stem`.
pub open spec fn wasm_file_of(out: Seq<char>, stem: Seq<char>) -> Seq<char> {
    joined(out, stem + ".wasm"@)
}

pub open spec fn level_flags(l: OptimizationLevel) -> Seq<Seq<char>> {
    match l {
        OptimizationLevel::Debug => seq!["--debug"@],
        OptimizationLevel::Release => seq!["--optimize"@],
        OptimizationLevel::Size => seq!["--optimize"@, "--shrinkLevel"@, "2"@],
    }
}

/// Compiler arguments: the entry, the release target, the output file, and
/// the flags of the optimization level.
pub open spec fn compiler_args(entry: Seq<char>, wasm_file: Seq<char>, l: OptimizationLevel) -> Seq<
    Seq<char>,
> {
    seq![entry, "--target"@, "release"@, "--outFile"@, wasm_file] + level_flags(l)
}

pub open spec fn inspects(a: BuildAction, path: Seq<char>) -> bool {
    match a {
        BuildAction::InspectProject { path: p } => p@ == path,
        _ => false,
    }
}

pub open spec fn probes(a: BuildAction, tool: Seq<char>) -> bool {
    match a {
        BuildAction::ProbeTool { tool: t } => t@ == tool,
        _ => false,
    }
}

pub open spec fn runs(
    a: BuildAction,
    program: Seq<char>,
    args: Seq<Seq<char>>,
    cwd: Seq<char>,
    verbose: bool,
) -> bool {
    match a {
        BuildAction::Run { program: p, args: xs, cwd: c, verbose: v } => p@ == program && names_of(
            xs@,
        ) == args && c@ == cwd && v == verbose,
        _ => false,
    }
}

pub open spec fn lists(a: BuildAction, dirs: Seq<Seq<char>>) -> bool {
    match a {
        BuildAction::ListDirs { dirs: ds } => names_of(ds@) == dirs,
        _ => false,
    }
}

pub open spec fn creates(a: BuildAction, path: Seq<char>) -> bool {
    match a {
        BuildAction::CreateDir { path: p } => p@ == path,
        _ => false,
    }
}

pub open spec fn copies(a: BuildAction, from: Seq<char>, to: Seq<char>) -> bool {
    match a {
        BuildAction::CopyFile { from: f, to: t } => f@ == from && t@ == to,
        _ => false,
    }
}

pub open spec fn checks(a: BuildAction, path: Seq<char>) -> bool {
    match a {
        BuildAction::CheckExists { path: p } => p@ == path,
        _ => false,
    }
}

/// The build ends with an artifact at `wasm_path`, no companion file, no
/// further outputs, and not from a bindgen-style toolchain.
pub open spec fn succeeds_with(a: BuildAction, wasm_path: Seq<char>) -> bool {
    match a {
        BuildAction::Finish { result: Ok(r) } => r.wasm_path@ == wasm_path && r.js_path is None
            && r.additional_files@.len() == 0 && !r.is_wasm_bindgen,
        _ => false,
    }
}

pub open spec fn fails_without_tool(a: BuildAction, tool: Seq<char>) -> bool {
    match a {
        BuildAction::Finish { result: Err(PluginError::CompileToolNotFound { tool: t }) } => t@
            == tool,
        _ => false,
    }
}

pub open spec fn fails_compiling(a: BuildAction, reason: Seq<char>) -> bool {
    match a {
        BuildAction::Finish { result: Err(PluginError::CompilationFailed { reason: r }) } => r@
            == reason,
        _ => false,
    }
}

pub open spec fn fails_without_entry(a: BuildAction) -> bool {
    match a {
        BuildAction::Finish { result: Err(e) } => is_missing_entry(e),
        _ => false,
    }
}

pub open spec fn fails_creating(a: BuildAction, path: Seq<char>) -> bool {
    match a {
        BuildAction::Finish {
            result: Err(PluginError::OutputDirectoryCreationFailed { path: p }),
        } => p@ == path,
        _ => false,
    }
}

pub open spec fn fails_io(a: BuildAction, message: Seq<char>) -> bool {
    match a {
        BuildAction::Finish { result: Err(PluginError::Io(m)) } => m@ == message,
        _ => false,
    }
}

/// An answer that does not fit the stage ends the build.
pub open spec fn rejects_event(after: BuildSession, a: BuildAction) -> bool {
    after.stage is Finished && fails_io(a, "unexpected answer for the current build stage"@)
}

/// The package-manager strategy failed: its error is dropped and the
/// compiler is probed for the fallback.
pub open spec fn falls_back(after: BuildSession, a: BuildAction) -> bool {
    after.stage == (Stage::ProbingCompiler { after_manager: true }) && probes(a, "asc"@)
}

/// The first look at the project.
pub open spec fn starts(after: BuildSession, a: BuildAction, config: BuildConfig) -> bool {
    &&& after.config == config
    &&& after.stage is Inspecting
    &&& after.root@.len() == 0
    &&& inspects(a, config.project_path@)
}

/// One step of a build: `after` and `a` follow from `before` and the answer `e`.
pub open spec fn next_step(before: BuildSession, e: BuildEvent, after: BuildSession, a: BuildAction) -> bool {
    let p = before.config.project_path@;
    let out = before.config.output_dir@;
    &&& after.config == before.config
    &&& after.root == (match (before.stage, e) {
        (Stage::Inspecting, BuildEvent::Project(v)) => v.root,
        _ => before.root,
    })
    &&& match before.stage {
        Stage::Inspecting => match e {
            BuildEvent::Project(v) => if has_manifest(v) {
                after.stage == (Stage::ProbingManager { index: 0 }) && probes(a, manager(0))
            } else {
                after.stage == (Stage::ProbingCompiler { after_manager: false }) && probes(
                    a,
                    "asc"@,
                )
            },
            _ => rejects_event(after, a),
        },
        Stage::ProbingManager { index } => match e {
            BuildEvent::Tool(ok) => if ok && (index >= 3 || listing_has(
                before.root@,
                lockfile(index as int),
            )) {
                after.stage == (Stage::RunningManager { index }) && runs(
                    a,
                    manager(index as int),
                    manager_args(index as int),
                    p,
                    before.config.verbose,
                )
            } else if index < 3 {
                after.stage == (Stage::ProbingManager { index: (index + 1) as usize }) && probes(
                    a,
                    manager(index + 1),
                )
            } else {
                falls_back(after, a)
            },
            _ => rejects_event(after, a),
        },
        Stage::RunningManager { .. } => match e {
            BuildEvent::Ran { success, .. } => if success {
                after.stage is SearchingOutputs && lists(a, output_dirs(p))
            } else {
                falls_back(after, a)
            },
            BuildEvent::SpawnFailed(_) => falls_back(after, a),
            _ => rejects_event(after, a),
        },
        Stage::SearchingOutputs => match e {
            BuildEvent::Listed(ls) => match first_output_dir_from(ls@, 0) {
                Some(d) => {
                    let name = wasm_names(ls@, d)[0];
                    &&& copies(a, joined(output_dir(p, d), name), joined(out, name))
                    &&& match after.stage {
                        Stage::CopyingOutput { to } => to@ == joined(out, name),
                        _ => false,
                    }
                },
                None => falls_back(after, a),
            },
            _ => rejects_event(after, a),
        },
        Stage::CopyingOutput { to } => match e {
            BuildEvent::Copied => after.stage is Finished && succeeds_with(a, to@),
            BuildEvent::CopyMissing => falls_back(after, a),
            BuildEvent::CopyFailed(_) => falls_back(after, a),
            _ => rejects_event(after, a),
        },
        Stage::ProbingCompiler { after_manager } => match e {
            BuildEvent::Tool(ok) => if ok {
                after.stage is Locating && inspects(a, p)
            } else {
                after.stage is Finished && fails_without_tool(
                    a,
                    if after_manager {
                        "asc or npm/yarn"@
                    } else {
                        "asc"@
                    },
                )
            },
            _ => rejects_event(after, a),
        },
        Stage::Locating => match e {
            BuildEvent::Project(v) => match entry_of(p, v) {
                Some(found) => {
                    &&& creates(a, out)
                    &&& match after.stage {
                        Stage::CreatingOutput { entry, stem } => entry@ == found.0 && stem@
                            == stem_of(found.1),
                        _ => false,
                    }
                },
                None => after.stage is Finished && fails_without_entry(a),
            },
            _ => rejects_event(after, a),
        },
        Stage::CreatingOutput { entry, stem } => match e {
            BuildEvent::DirCreated(ok) => if ok {
                let w = wasm_file_of(out, stem@);
                &&& runs(
                    a,
                    "asc"@,
                    compiler_args(entry@, w, before.config.optimization_level),
                    p,
                    before.config.verbose,
                )
                &&& match after.stage {
                    Stage::Compiling { wasm_file } => wasm_file@ == w,
                    _ => false,
                }
            } else {
                after.stage is Finished && fails_creating(a, out)
            },
            _ => rejects_event(after, a),
        },
        Stage::Compiling { wasm_file } => match e {
            BuildEvent::Ran { success, stderr } => if success {
                &&& checks(a, wasm_file@)
                &&& match after.stage {
                    Stage::Confirming { wasm_file: w } => w@ == wasm_file@,
                    _ => false,
                }
            } else {
                after.stage is Finished && fails_compiling(a, stderr@)
            },
            BuildEvent::SpawnFailed(m) => after.stage is Finished && fails_io(a, m@),
            _ => rejects_event(after, a),
        },
        Stage::Confirming { wasm_file } => match e {
            BuildEvent::Exists(ok) => after.stage is Finished && if ok {
                succeeds_with(a, wasm_file@)
            } else {
                fails_compiling(a, "WASM file was not created"@)
            },
            _ => rejects_event(after, a),
        },
        Stage::Finished => rejects_event(after, a),
    }
}

proof fn lemma_filtered_have_extension(names: Seq<Seq<char>>, ext: Seq<char>)
    ensures
        forall|i: int|
            0 <= i < names_with_extension(names, ext).len() ==> has_extension(
                #[trigger] names_with_extension(names, ext)[i],
                ext,
            ),
    decreases names.len(),
{
    if names.len() > 0 {
        lemma_filtered_have_extension(names.drop_last(), ext);
        let rest = names_with_extension(names.drop_last(), ext);
        assert forall|i: int| 0 <= i < names_with_extension(names, ext).len() implies has_extension(
            #[trigger] names_with_extension(names, ext)[i],
            ext,
        ) by {
            if i < rest.len() {
                assert(names_with_extension(names, ext)[i] == rest[i]);
            }
        }
    }
}

proof fn lemma_first_source_dir(v: ProjectView, k: int)
    ensures
        match crate::project::first_source_dir_from(v, k) {
            Some(d) => 0 <= d < 3 && crate::project::sources_in(v, d).len() > 0,
            None => true,
        },
    decreases 3 - k,
{
    if 0 <= k < 3 {
        lemma_first_source_dir(v, k + 1);
    }
}

proof fn lemma_entry_name_long(project: Seq<char>, v: ProjectView)
    ensures
        match entry_of(project, v) {
            Some(found) => found.1.len() >= 3,
            None => true,
        },
{
    reveal_strlit("index.ts");
    reveal_strlit("main.ts");
    reveal_strlit("ts");
    if entry_of(project, v) is Some {
        lemma_first_source_dir(v, 0);
        if crate::project::first_candidate_from(v, 0) is None {
            let d = crate::project::first_source_dir_from(v, 0)->0;
            lemma_filtered_have_extension(
                names_of(crate::project::listing(v, d)),
                "ts"@,
            );
            assert(has_extension(crate::project::sources_in(v, d)[0], "ts"@));
        }
    }
}

fn manager_exec(i: usize) -> (r: &'static str)
    ensures
        r@ == manager(i as int),
{
    if i == 0 {
        "bun"
    } else if i == 1 {
        "pnpm"
    } else if i == 2 {
        "yarn"
    } else {
        "npm"
    }
}

fn lockfile_exec(i: usize) -> (r: &'static str)
    ensures
        r@ == lockfile(i as int),
{
    if i == 0 {
        "bun.lockb"
    } else if i == 1 {
        "pnpm-lock.yaml"
    } else {
        "yarn.lock"
    }
}

fn manager_args_exec(i: usize) -> (r: Vec<String>)
    ensures
        names_of(r@) == manager_args(i as int),
{
    let mut r: Vec<String> = Vec::new();
    if i != 2 {
        r.push(String::from_str("run"));
    }
    r.push(String::from_str("build"));
    if i == 2 {
        assert(names_of(r@) =~= seq!["build"@]);
    } else {
        assert(names_of(r@) =~= seq!["run"@, "build"@]);
    }
    r
}

fn output_dir_exec(project: &str, d: usize) -> (r: String)
    ensures
        r@ == output_dir(project@, d as int),
{
    if d == 0 {
        PathResolver::join_paths(project, "build")
    } else if d == 1 {
        PathResolver::join_paths(project, "dist")
    } else if d == 2 {
        PathResolver::join_paths(project, "out")
    } else if d == 3 {
        PathResolver::join_paths(project, "target")
    } else {
        String::from_str(project)
    }
}

fn output_dirs_exec(project: &str) -> (r: Vec<String>)
    ensures
        names_of(r@) == output_dirs(project@),
{
    let mut r: Vec<String> = Vec::new();
    let mut d: usize = 0;
    while d < 5
        invariant
            d <= 5,
            r@.len() == d,
            forall|j: int| 0 <= j < d ==> #[trigger] r@[j]@ == output_dir(project@, j),
        decreases 5 - d,
    {
        r.push(output_dir_exec(project, d));
        d = d + 1;
    }
    assert(names_of(r@) =~= output_dirs(project@));
    r
}

fn compiler_args_exec(entry: &str, wasm_file: &str, l: OptimizationLevel) -> (r: Vec<String>)
    ensures
        names_of(r@) == compiler_args(entry@, wasm_file@, l),
{
    let mut r: Vec<String> = Vec::new();
    r.push(String::from_str(entry));
    r.push(String::from_str("--target"));
    r.push(String::from_str("release"));
    r.push(String::from_str("--outFile"));
    r.push(String::from_str(wasm_file));
    match l {
        OptimizationLevel::Debug => {
            r.push(String::from_str("--debug"));
        },
        OptimizationLevel::Release => {
            r.push(String::from_str("--optimize"));
        },
        OptimizationLevel::Size => {
            r.push(String::from_str("--optimize"));
            r.push(String::from_str("--shrinkLevel"));
            r.push(String::from_str("2"));
        },
    }
    assert(names_of(r@) =~= compiler_args(entry@, wasm_file@, l));
    r
}

fn probe(tool: &str) -> (r: BuildAction)
    ensures
        probes(r, tool@),
{
    BuildAction::ProbeTool { tool: String::from_str(tool) }
}

fn finished(config: BuildConfig, root: Vec<String>) -> (r: BuildSession)
    ensures
        r.config == config,
        r.root == root,
        r.stage is Finished,
{
    BuildSession { config, stage: Stage::Finished, root }
}

fn fail(e: PluginError) -> (r: BuildAction)
    ensures
        r == (BuildAction::Finish { result: Err(e) }),
{
    BuildAction::Finish { result: Err(e) }
}

impl BuildSession {
    /// A new build of `config`: it first asks to look at the project.
    pub fn start(config: &BuildConfig) -> (r: (BuildSession, BuildAction))
        ensures
            starts(r.0, r.1, *config),
    {
        let config = BuildConfig {
            project_path: config.project_path.clone(),
            output_dir: config.output_dir.clone(),
            optimization_level: config.optimization_level,
            verbose: config.verbose,
            watch: config.watch,
        };
        let action = BuildAction::InspectProject { path: config.project_path.clone() };
        (BuildSession { config, stage: Stage::Inspecting, root: Vec::new() }, action)
    }

    /// The build is over: its last action was `Finish`.
    pub fn is_finished(&self) -> (r: bool)
        ensures
            r == self.stage is Finished,
    {
        match self.stage {
            Stage::Finished => true,
            _ => false,
        }
    }

    /// Takes the host's answer to the last action and gives the next action.
    #[verifier::loop_isolation(false)]
    pub fn step(self, e: BuildEvent) -> (r: (BuildSession, BuildAction))
        ensures
            next_step(self, e, r.0, r.1),
    {
        let BuildSession { config, stage, root } = self;
        let unexpected = PluginError::Io(
            String::from_str("unexpected answer for the current build stage"),
        );
        match stage {
            Stage::Inspecting => match e {
                BuildEvent::Project(v) => {
                    if listing_contains(&v.root, "package.json") {
                        (
                            BuildSession {
                                config,
                                stage: Stage::ProbingManager { index: 0 },
                                root: v.root,
                            },
                            probe(manager_exec(0)),
                        )
                    } else {
                        (
                            BuildSession {
                                config,
                                stage: Stage::ProbingCompiler { after_manager: false },
                                root: v.root,
                            },
                            probe("asc"),
                        )
                    }
                },
                _ => (finished(config, root), fail(unexpected)),
            },
            Stage::ProbingManager { index } => match e {
                BuildEvent::Tool(ok) => {
                    if ok && (index >= 3 || listing_contains(&root, lockfile_exec(index))) {
                        let action = BuildAction::Run {
                            program: String::from_str(manager_exec(index)),
                            args: manager_args_exec(index),
                            cwd: config.project_path.clone(),
                            verbose: config.verbose,
                        };
                        (BuildSession { config, stage: Stage::RunningManager { index }, root }, action)
                    } else if index < 3 {
                        (
                            BuildSession {
                                config,
                                stage: Stage::ProbingManager { index: index + 1 },
                                root,
                            },
                            probe(manager_exec(index + 1)),
                        )
                    } else {
                        (
                            BuildSession {
                                config,
                                stage: Stage::ProbingCompiler { after_manager: true },
                                root,
                            },
                            probe("asc"),
                        )
                    }
                },
                _ => (finished(config, root), fail(unexpected)),
            },
            Stage::RunningManager { index } => match e {
                BuildEvent::Ran { success, .. } => {
                    if success {
                        let dirs = output_dirs_exec(config.project_path.as_str());
                        (
                            BuildSession { config, stage: Stage::SearchingOutputs, root },
                            BuildAction::ListDirs { dirs },
                        )
                    } else {
                        (
                            BuildSession {
                                config,
                                stage: Stage::ProbingCompiler { after_manager: true },
                                root,
                            },
                            probe("asc"),
                        )
                    }
                },
                BuildEvent::SpawnFailed(_) => (
                    BuildSession {
                        config,
                        stage: Stage::ProbingCompiler { after_manager: true },
                        root,
                    },
                    probe("asc"),
                ),
                _ => (finished(config, root), fail(unexpected)),
            },
            Stage::SearchingOutputs => match e {
                BuildEvent::Listed(ls) => {
                    let mut d: usize = 0;
                    while d < 5
                        invariant
                            d <= 5,
                            first_output_dir_from(ls@, 0) == first_output_dir_from(ls@, d as int),
                        decreases 5 - d,
                    {
                        if d < ls.len() {
                            let found = crate::paths::names_with_ext(&ls[d], "wasm");
                            if found.len() > 0 {
                                assert(names_of(found@)[0] == found@[0]@);
                                assert(names_of(found@) == wasm_names(ls@, d as int));
                                assert(first_output_dir_from(ls@, d as int) == Some(d as int));
                                let dir = output_dir_exec(config.project_path.as_str(), d);
                                let from = PathResolver::join_paths(dir.as_str(), found[0].as_str());
                                let to = PathResolver::join_paths(
                                    config.output_dir.as_str(),
                                    found[0].as_str(),
                                );
                                let action = BuildAction::CopyFile { from, to: to.clone() };
                                return (
                                    BuildSession { config, stage: Stage::CopyingOutput { to }, root },
                                    action,
                                );
                            }
                        }
                        d = d + 1;
                    }
                    (
                        BuildSession {
                            config,
                            stage: Stage::ProbingCompiler { after_manager: true },
                            root,
                        },
                        probe("asc"),
                    )
                },
                _ => (finished(config, root), fail(unexpected)),
            },
            Stage::CopyingOutput { to } => match e {
                BuildEvent::Copied => {
                    let result = BuildResult {
                        wasm_path: to,
                        js_path: None,
                        additional_files: Vec::new(),
                        is_wasm_bindgen: false,
                    };
                    (finished(config, root), BuildAction::Finish { result: Ok(result) })
                },
                BuildEvent::CopyMissing | BuildEvent::CopyFailed(_) => (
                    BuildSession {
                        config,
                        stage: Stage::ProbingCompiler { after_manager: true },
                        root,
                    },
                    probe("asc"),
                ),
                _ => (finished(config, root), fail(unexpected)),
            },
            Stage::ProbingCompiler { after_manager } => match e {
                BuildEvent::Tool(ok) => {
                    if ok {
                        let action = BuildAction::InspectProject {
                            path: config.project_path.clone(),
                        };
                        (BuildSession { config, stage: Stage::Locating, root }, action)
                    } else {
                        let tool = if after_manager {
                            String::from_str("asc or npm/yarn")
                        } else {
                            String::from_str("asc")
                        };
                        (
                            finished(config, root),
                            fail(PluginError::CompileToolNotFound { tool }),
                        )
                    }
                },
                _ => (finished(config, root), fail(unexpected)),
            },
            Stage::Locating => match e {
                BuildEvent::Project(v) => {
                    proof {
                        lemma_entry_name_long(config.project_path@, v);
                    }
                    match locate_entry(config.project_path.as_str(), &v) {
                        Some((entry, name)) => {
                            let n = name.unicode_len();
                            let stem = String::from_str(name.as_str().substring_char(0, n - 3));
                            let action = BuildAction::CreateDir { path: config.output_dir.clone() };
                            (
                                BuildSession {
                                    config,
                                    stage: Stage::CreatingOutput { entry, stem },
                                    root,
                                },
                                action,
                            )
                        },
                        None => (
                            finished(config, root),
                            fail(
                                PluginError::MissingEntryFile {
                                    candidates: crate::project::entry_candidate_list(),
                                },
                            ),
                        ),
                    }
                },
                _ => (finished(config, root), fail(unexpected)),
            },
            Stage::CreatingOutput { entry, stem } => match e {
                BuildEvent::DirCreated(ok) => {
                    if ok {
                        let mut file_name = stem.clone();
                        file_name.append(".wasm");
                        let wasm_file = PathResolver::join_paths(
                            config.output_dir.as_str(),
                            file_name.as_str(),
                        );
                        let action = BuildAction::Run {
                            program: String::from_str("asc"),
                            args: compiler_args_exec(
                                entry.as_str(),
                                wasm_file.as_str(),
                                config.optimization_level,
                            ),
                            cwd: config.project_path.clone(),
                            verbose: config.verbose,
                        };
                        (BuildSession { config, stage: Stage::Compiling { wasm_file }, root }, action)
                    } else {
                        let path = config.output_dir.clone();
                        (
                            finished(config, root),
                            fail(PluginError::OutputDirectoryCreationFailed { path }),
                        )
                    }
                },
                _ => (finished(config, root), fail(unexpected)),
            },
            Stage::Compiling { wasm_file } => match e {
                BuildEvent::Ran { success, stderr } => {
                    if success {
                        let action = BuildAction::CheckExists { path: wasm_file.clone() };
                        (BuildSession { config, stage: Stage::Confirming { wasm_file }, root }, action)
                    } else {
                        (
                            finished(config, root),
                            fail(PluginError::CompilationFailed { reason: stderr }),
                        )
                    }
                },
                BuildEvent::SpawnFailed(m) => (finished(config, root), fail(PluginError::Io(m))),
                _ => (finished(config, root), fail(unexpected)),
            },
            Stage::Confirming { wasm_file } => match e {
                BuildEvent::Exists(ok) => {
                    if ok {
                        let result = BuildResult {
                            wasm_path: wasm_file,
                            js_path: None,
                            additional_files: Vec::new(),
                            is_wasm_bindgen: false,
                        };
                        (finished(config, root), BuildAction::Finish { result: Ok(result) })
                    } else {
                        (
                            finished(config, root),
                            fail(
                                PluginError::CompilationFailed {
                                    reason: String::from_str("WASM file was not created"),
                                },
                            ),
                        )
                    }
                },
                _ => (finished(config, root), fail(unexpected)),
            },
            Stage::Finished => (finished(config, root), fail(unexpected)),
        }
    }
}

proof fn lemma_first_output(project: Seq<char>, ls: Seq<Vec<String>>, d: int)
    requires
        0 <= d <= 5,
    ensures
        match first_output_dir_from(ls, d) {
            Some(k) => all_outputs_from(project, ls, d).len() > 0 && all_outputs_from(
                project,
                ls,
                d,
            )[0] == joined(output_dir(project, k), wasm_names(ls, k)[0]),
            None => all_outputs_from(project, ls, d).len() == 0,
        },
    decreases 5 - d,
{
    if d < 5 {
        lemma_first_output(project, ls, d + 1);
        let here = joined_all(output_dir(project, d), wasm_names(ls, d));
        let rest = all_outputs_from(project, ls, d + 1);
        assert(all_outputs_from(project, ls, d) == here + rest);
        if wasm_names(ls, d).len() > 0 {
            assert((here + rest)[0] == here[0]);
        } else {
            assert(here + rest =~= rest);
        }
    }
}

/// When the package manager's build fails, its error never ends the build:
/// the compiler is probed next, and when it is installed the direct
/// compiler strategy starts by looking for the entry file.
pub proof fn lemma_manager_failure_falls_back(
    b: BuildSession,
    e: BuildEvent,
    b1: BuildSession,
    a1: BuildAction,
    b2: BuildSession,
    a2: BuildAction,
)
    requires
        b.stage is RunningManager,
        e is SpawnFailed || (e matches BuildEvent::Ran { success, .. } && !success),
        next_step(b, e, b1, a1),
        next_step(b1, BuildEvent::Tool(true), b2, a2),
    ensures
        !(a1 is Finish),
        probes(a1, "asc"@),
        b2.stage is Locating,
        inspects(a2, b.config.project_path@),
{
}

/// After a successful package-manager build, of all WebAssembly files found
/// in the output directories (directory by directory, each in listing
/// order) only the first is copied, into the output directory under its own
/// name, and the build's artifact is that copy.
pub proof fn lemma_first_output_copied(
    b: BuildSession,
    ls: Vec<Vec<String>>,
    b1: BuildSession,
    a1: BuildAction,
    b2: BuildSession,
    a2: BuildAction,
)
    requires
        b.stage is SearchingOutputs,
        all_outputs_from(b.config.project_path@, ls@, 0).len() > 0,
        next_step(b, BuildEvent::Listed(ls), b1, a1),
        next_step(b1, BuildEvent::Copied, b2, a2),
    ensures
        match a1 {
            BuildAction::CopyFile { from, to } => {
                &&& from@ == all_outputs_from(b.config.project_path@, ls@, 0)[0]
                &&& exists|d: int, name: Seq<char>|
                    from@ == joined(output_dir(b.config.project_path@, d), name) && to@ == joined(
                        b.config.output_dir@,
                        name,
                    )
                &&& succeeds_with(a2, to@)
            },
            _ => false,
        },
{
    let p = b.config.project_path@;
    lemma_first_output(p, ls@, 0);
    let d = first_output_dir_from(ls@, 0)->0;
    let name = wasm_names(ls@, d)[0];
    assert(joined(output_dir(p, d), name) == all_outputs_from(p, ls@, 0)[0]);
}

} // verus!

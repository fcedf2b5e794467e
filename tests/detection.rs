use wasmasc::{
    create_plugin, AscPlugin, PathResolver, Plugin, PluginError, PluginType, ProjectView,
    WasmBuilder, PLUGIN_VERSION,
};

fn names(items: &[&str]) -> Vec<String> {
    items.iter().map(|s| s.to_string()).collect()
}

fn view(root: &[&str], assembly: &[&str], src: &[&str], manifest: Option<&str>) -> ProjectView {
    ProjectView {
        is_dir: true,
        root: names(root),
        assembly: names(assembly),
        src: names(src),
        manifest: manifest.map(|m| m.to_string()),
    }
}

const PHASE_ONE: [&str; 6] = [
    "assembly/index.ts",
    "assembly/main.ts",
    "src/index.ts",
    "src/main.ts",
    "index.ts",
    "main.ts",
];

#[test]
fn manifest_without_compiler_and_no_entry_is_rejected() {
    let plugin = AscPlugin::new();
    let v = view(
        &["package.json", "README.md", "assembly"],
        &["notes.md"],
        &["lib.js"],
        Some("{\"name\": \"web\", \"scripts\": {\"build\": \"webpack\"}}"),
    );
    assert!(!WasmBuilder::can_handle_project(&plugin, &v));
    assert!(!Plugin::can_handle_project(&plugin, &v));
}

#[test]
fn manifest_mentioning_compiler_is_accepted() {
    let plugin = AscPlugin::new();
    let v = view(
        &["package.json"],
        &[],
        &[],
        Some("{\"devDependencies\": {\"assemblyscript\": \"^0.27\"}, \"scripts\": {\"build\": \"asc assembly/index.ts\"}}"),
    );
    assert!(WasmBuilder::can_handle_project(&plugin, &v));
    assert!(Plugin::can_handle_project(&plugin, &v));
    assert!(plugin.is_asc_project(&v));
}

#[test]
fn root_source_is_detected_by_builder_only() {
    let plugin = AscPlugin::new();
    let v = view(&["lib.ts"], &[], &[], None);
    assert!(WasmBuilder::can_handle_project(&plugin, &v));
    assert!(!Plugin::can_handle_project(&plugin, &v));
}

#[test]
fn assembly_entry_is_detected_by_both() {
    let plugin = AscPlugin::new();
    let v = view(&["assembly"], &["main.ts"], &[], None);
    assert!(WasmBuilder::can_handle_project(&plugin, &v));
    assert!(Plugin::can_handle_project(&plugin, &v));
}

#[test]
fn hidden_and_declaration_names() {
    let plugin = AscPlugin::new();
    // ".ts" has no extension; "types.d.ts" has extension "ts".
    let hidden = view(&[".ts"], &[], &[], None);
    assert!(!WasmBuilder::can_handle_project(&plugin, &hidden));
    let decl = view(&["types.d.ts"], &[], &[], None);
    assert!(WasmBuilder::can_handle_project(&plugin, &decl));
}

#[test]
fn each_single_candidate_is_the_entry() {
    let plugin = AscPlugin::new();
    for rel in PHASE_ONE {
        let (dir, name) = match rel.split_once('/') {
            Some((d, n)) => (d, n),
            None => ("", rel),
        };
        let v = match dir {
            "assembly" => view(&["assembly"], &[name], &[], None),
            "src" => view(&["src"], &[], &[name], None),
            _ => view(&[name], &[], &[], None),
        };
        assert_eq!(plugin.validate_project("/p", &v), Ok(()));
        assert_eq!(plugin.find_entry_file("/p", &v), Ok(format!("/p/{rel}")));
    }
}

#[test]
fn candidates_follow_priority_order() {
    let plugin = AscPlugin::new();
    let v = view(&["index.ts", "main.ts"], &["main.ts"], &["index.ts"], None);
    assert_eq!(
        plugin.find_entry_file("proj", &v),
        Ok("proj/assembly/main.ts".to_string())
    );
}

#[test]
fn directory_scan_finds_first_source() {
    let plugin = AscPlugin::new();
    let v = view(&["z.ts"], &["readme.md"], &["util.ts", "other.ts"], None);
    assert_eq!(
        plugin.find_entry_file("proj/", &v),
        Ok("proj/src/util.ts".to_string())
    );
    let root_only = view(&["a.js", "z.ts"], &[], &[], None);
    assert_eq!(
        plugin.find_entry_file("proj", &root_only),
        Ok("proj/z.ts".to_string())
    );
}

#[test]
fn no_entry_reports_candidate_list() {
    let plugin = AscPlugin::new();
    let v = view(&["README.md"], &[], &["x.js"], None);
    let expected: Vec<String> = PHASE_ONE.iter().map(|s| s.to_string()).collect();
    assert_eq!(
        plugin.validate_project("/p", &v),
        Err(PluginError::MissingEntryFile { candidates: expected.clone() })
    );
    assert_eq!(
        plugin.find_entry_file("/p", &v),
        Err(PluginError::MissingEntryFile { candidates: expected })
    );
}

#[test]
fn not_a_directory_is_invalid() {
    let plugin = AscPlugin::new();
    let mut v = view(&[], &[], &[], None);
    v.is_dir = false;
    assert_eq!(
        plugin.validate_project("/nope", &v),
        Err(PluginError::InvalidProjectStructure {
            reason: "Directory does not exist: /nope".to_string()
        })
    );
    assert_eq!(PathResolver::validate_directory_exists("/d", true), Ok(()));
}

#[test]
fn dependency_report() {
    let plugin = AscPlugin::new();
    assert_eq!(plugin.required_tools(), names(&["asc", "node"]));
    assert_eq!(
        plugin.check_dependencies(&vec![false, false]),
        names(&[
            "asc (AssemblyScript compiler - install with: npm install -g asc)",
            "node (Node.js runtime)"
        ])
    );
    assert_eq!(plugin.check_dependencies(&vec![]).len(), 2);
    assert!(plugin.check_dependencies(&vec![true, true]).is_empty());
    assert_eq!(
        plugin.check_dependencies(&vec![true, false]),
        names(&["node (Node.js runtime)"])
    );
}

#[test]
fn clean_without_build_dir_is_nothing() {
    let plugin = AscPlugin::new();
    let v = view(&["src", "package.json"], &[], &[], None);
    assert_eq!(plugin.clean("/p", &v), None);
    assert_eq!(plugin.clean("/p", &v), None);
    let with_build = view(&["build"], &[], &[], None);
    assert_eq!(plugin.clean("/p", &with_build), Some("/p/build".to_string()));
}

#[test]
fn metadata() {
    let plugin = AscPlugin::new();
    let info = Plugin::info(&plugin);
    assert_eq!(info.name, "asc");
    assert_eq!(info.version, PLUGIN_VERSION);
    assert_eq!(info.author, "Wasmrun Team");
    assert_eq!(info.extensions, names(&["ts"]));
    assert_eq!(info.entry_files, names(&["assembly/index.ts", "index.ts", "package.json"]));
    assert_eq!(info.plugin_type, PluginType::External);
    assert!(info.capabilities.compile_wasm && !info.capabilities.compile_webapp);
    assert_eq!(info.capabilities.custom_targets, names(&["wasm"]));
    assert_eq!(plugin.language_name(), "AssemblyScript");
    assert_eq!(plugin.supported_extensions(), names(&["ts"]));
    assert_eq!(
        plugin.entry_file_candidates(),
        names(&["assembly/index.ts", "assembly/main.ts", "package.json", "assembly/package.json"])
    );
    let other = AscPlugin::with_version("2.3.4");
    assert_eq!(other.duplicate().info().version, "2.3.4");
    let boxed = create_plugin();
    assert_eq!(boxed.info().name, "asc");
    let builder = plugin.get_builder();
    assert_eq!(builder.language_name(), "AssemblyScript");
    assert_eq!(plugin.clone_box().supported_extensions(), names(&["ts"]));
}

#[test]
fn path_joining() {
    assert_eq!(PathResolver::join_paths("a", "b"), "a/b");
    assert_eq!(PathResolver::join_paths("a/", "b"), "a/b");
    assert_eq!(PathResolver::join_paths("", "b"), "b");
    assert_eq!(PathResolver::join_paths("a", "/abs"), "/abs");
    assert_eq!(PathResolver::join_paths("a", ""), "a/");
}

#[test]
fn extension_filter() {
    let listing = names(&["a.wasm", "b.wat", "c.wasm", ".wasm", "d"]);
    assert_eq!(
        PathResolver::find_files_with_extension("out", &listing, "wasm"),
        names(&["out/a.wasm", "out/c.wasm"])
    );
    assert!(PathResolver::find_files_with_extension("out", &listing, "w.asm").is_empty());
}

#[test]
fn command_line_text() {
    assert_eq!(
        wasmasc::CommandExecutor::describe_command("npm", &names(&["run", "build"])),
        "Executing: npm run build"
    );
    assert_eq!(
        wasmasc::CommandExecutor::describe_command("asc", &vec![]),
        "Executing: asc "
    );
}

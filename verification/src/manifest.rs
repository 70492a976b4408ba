//! The flatpak manifest: its data model, its synthesis from the game id and
//! the resolved executable, and its serialization to YAML text.

use vstd::prelude::*;

use crate::ids::spec_flatpak_id;

verus! {

/// The kind of a build source. Only directory sources exist in this version;
/// the tag serializes as the lowercase literal `dir`.
#[derive(Clone, Copy, Debug, PartialEq, Eq, Structural)]
pub enum FlatpakSourceType {
    Dir,
}

/// One build source of a module.
#[derive(Debug)]
pub struct FlatpakSource {
    pub source_type: FlatpakSourceType,
    pub path: String,
}

/// One build unit within the manifest.
#[derive(Debug)]
pub struct FlatpakModule {
    pub name: String,
    pub build_system: String,
    pub build_commands: Vec<String>,
    pub sources: Vec<FlatpakSource>,
}

/// The declarative description of one packaged application.
#[derive(Debug)]
pub struct FlatpakManifest {
    pub app_id: String,
    pub runtime: String,
    pub runtime_version: String,
    pub sdk: String,
    pub command: String,
    pub finish_args: Vec<String>,
    pub modules: Vec<FlatpakModule>,
}

/// The mathematical value of a source.
#[verifier::ext_equal]
pub ghost struct SourceView {
    pub source_type: FlatpakSourceType,
    pub path: Seq<char>,
}

/// The mathematical value of a module.
#[verifier::ext_equal]
pub ghost struct ModuleView {
    pub name: Seq<char>,
    pub build_system: Seq<char>,
    pub build_commands: Seq<Seq<char>>,
    pub sources: Seq<SourceView>,
}

/// The mathematical value of a manifest.
#[verifier::ext_equal]
pub ghost struct ManifestView {
    pub app_id: Seq<char>,
    pub runtime: Seq<char>,
    pub runtime_version: Seq<char>,
    pub sdk: Seq<char>,
    pub command: Seq<char>,
    pub finish_args: Seq<Seq<char>>,
    pub modules: Seq<ModuleView>,
}

impl View for FlatpakSource {
    type V = SourceView;

    open spec fn view(&self) -> SourceView {
        SourceView { source_type: self.source_type, path: self.path@ }
    }
}

impl View for FlatpakModule {
    type V = ModuleView;

    open spec fn view(&self) -> ModuleView {
        ModuleView {
            name: self.name@,
            build_system: self.build_system@,
            build_commands: self.build_commands@.map_values(|s: String| s@),
            sources: self.sources@.map_values(|s: FlatpakSource| s@),
        }
    }
}

impl View for FlatpakManifest {
    type V = ManifestView;

    open spec fn view(&self) -> ManifestView {
        ManifestView {
            app_id: self.app_id@,
            runtime: self.runtime@,
            runtime_version: self.runtime_version@,
            sdk: self.sdk@,
            command: self.command@,
            finish_args: self.finish_args@.map_values(|s: String| s@),
            modules: self.modules@.map_values(|m: FlatpakModule| m@),
        }
    }
}

/// The fixed sandbox permission grants, in the order they are written.
pub open spec fn spec_finish_args() -> Seq<Seq<char>> {
    seq![
        "--share=ipc"@,
        "--socket=x11"@,
        "--socket=pulseaudio"@,
        "--share=network"@,
        "--device=dri"@,
        "--filesystem=/tmp/devcade/persistence.sock"@,
    ]
}

/// The manifest synthesized for a game id and a resolved executable name:
/// fixed platform identifiers, the derived application id, the in-sandbox
/// command path, the fixed permission grants, and one copy-based module
/// with one directory source.
pub open spec fn spec_synthesized(game_id: Seq<char>, executable: Seq<char>) -> ManifestView {
    ManifestView {
        app_id: spec_flatpak_id(game_id),
        runtime: "org.freedesktop.Platform"@,
        runtime_version: "22.08"@,
        sdk: "org.freedesktop.Sdk"@,
        command: "/app/publish/"@ + executable,
        finish_args: spec_finish_args(),
        modules: seq![
            ModuleView {
                name: game_id,
                build_system: "simple"@,
                build_commands: seq!["cp -r . /app/publish"@],
                sources: seq![SourceView { source_type: FlatpakSourceType::Dir, path: "publish"@ }],
            },
        ],
    }
}

/// Builds the manifest for `game_id` with entry executable `executable`.
/// A pure function of its two arguments.
pub fn synthesize_manifest(game_id: &str, executable: &str) -> (m: FlatpakManifest)
    ensures
        m@ == spec_synthesized(game_id@, executable@),
{
    let mut command = String::from_str("/app/publish/");
    command.append(executable);

    let mut finish_args: Vec<String> = Vec::new();
    finish_args.push(String::from_str("--share=ipc"));
    finish_args.push(String::from_str("--socket=x11"));
    finish_args.push(String::from_str("--socket=pulseaudio"));
    finish_args.push(String::from_str("--share=network"));
    finish_args.push(String::from_str("--device=dri"));
    finish_args.push(String::from_str("--filesystem=/tmp/devcade/persistence.sock"));

    let mut build_commands: Vec<String> = Vec::new();
    build_commands.push(String::from_str("cp -r . /app/publish"));

    let mut sources: Vec<FlatpakSource> = Vec::new();
    sources.push(
        FlatpakSource { source_type: FlatpakSourceType::Dir, path: String::from_str("publish") },
    );

    let mut modules: Vec<FlatpakModule> = Vec::new();
    modules.push(
        FlatpakModule {
            name: String::from_str(game_id),
            build_system: String::from_str("simple"),
            build_commands,
            sources,
        },
    );

    let m = FlatpakManifest {
        app_id: crate::ids::flatpak_id_for_game(game_id),
        runtime: String::from_str("org.freedesktop.Platform"),
        runtime_version: String::from_str("22.08"),
        sdk: String::from_str("org.freedesktop.Sdk"),
        command,
        finish_args,
        modules,
    };
    proof {
        assert(m@.finish_args =~= spec_finish_args());
        assert(m@.modules =~~= spec_synthesized(game_id@, executable@).modules);
        assert(m@ =~~= spec_synthesized(game_id@, executable@));
    }
    m
}

/// The command field of every synthesized manifest is the in-sandbox publish
/// prefix followed by the executable name, and its single source is the
/// literal relative path `publish`, whatever the game id.
pub proof fn lemma_synthesized_command_and_source(game_id: Seq<char>, executable: Seq<char>)
    ensures
        spec_synthesized(game_id, executable).command == "/app/publish/"@ + executable,
        spec_synthesized(game_id, executable).modules.len() == 1,
        spec_synthesized(game_id, executable).modules[0].sources.len() == 1,
        spec_synthesized(game_id, executable).modules[0].sources[0].path == "publish"@,
{
}

/// One block-sequence line per item: the indent, a dash, the item, a newline.
pub open spec fn spec_yaml_items(items: Seq<Seq<char>>, indent: Seq<char>) -> Seq<char>
    decreases items.len(),
{
    if items.len() == 0 {
        Seq::empty()
    } else {
        spec_yaml_items(items.drop_last(), indent) + indent + "- "@ + items.last() + "\n"@
    }
}

/// The YAML block for one source.
pub open spec fn spec_source_yaml(s: SourceView) -> Seq<char> {
    "  - type: "@ + spec_source_tag(s.source_type) + "\n    path: "@ + s.path + "\n"@
}

/// The serialized tag of a source kind.
pub open spec fn spec_source_tag(t: FlatpakSourceType) -> Seq<char> {
    match t {
        FlatpakSourceType::Dir => "dir"@,
    }
}

/// The YAML blocks of a module's sources, in order.
pub open spec fn spec_sources_yaml(sources: Seq<SourceView>) -> Seq<char>
    decreases sources.len(),
{
    if sources.len() == 0 {
        Seq::empty()
    } else {
        spec_sources_yaml(sources.drop_last()) + spec_source_yaml(sources.last())
    }
}

/// The YAML block for one module: its keys in declared field order, with the
/// build-system key written as the literal `buildsystem`.
pub open spec fn spec_module_yaml(m: ModuleView) -> Seq<char> {
    "- name: "@ + m.name + "\n  buildsystem: "@ + m.build_system + "\n  build-commands:\n"@
        + spec_yaml_items(m.build_commands, "  "@) + "  sources:\n"@ + spec_sources_yaml(m.sources)
}

/// The YAML blocks of the manifest's modules, in order.
pub open spec fn spec_modules_yaml(modules: Seq<ModuleView>) -> Seq<char>
    decreases modules.len(),
{
    if modules.len() == 0 {
        Seq::empty()
    } else {
        spec_modules_yaml(modules.drop_last()) + spec_module_yaml(modules.last())
    }
}

/// The serialized manifest: top-level keys in declared field order, kebab-case
/// names, the runtime version quoted so it reads back as a string.
pub open spec fn spec_manifest_yaml(m: ManifestView) -> Seq<char> {
    "app-id: "@ + m.app_id + "\nruntime: "@ + m.runtime + "\nruntime-version: '"@
        + m.runtime_version + "'\nsdk: "@ + m.sdk + "\ncommand: "@ + m.command
        + "\nfinish-args:\n"@ + spec_yaml_items(m.finish_args, Seq::empty()) + "modules:\n"@
        + spec_modules_yaml(m.modules)
}

/// Serialization is deterministic: manifests with the same value serialize
/// to the same text.
pub proof fn lemma_yaml_deterministic(m1: ManifestView, m2: ManifestView)
    requires
        m1 == m2,
    ensures
        spec_manifest_yaml(m1) == spec_manifest_yaml(m2),
{
}

/// Emits one block-sequence line per item.
fn yaml_items(items: &Vec<String>, indent: &str) -> (r: String)
    ensures
        r@ == spec_yaml_items(items@.map_values(|s: String| s@), indent@),
{
    let ghost views = items@.map_values(|s: String| s@);
    let mut out = String::new();
    let mut i: usize = 0;
    while i < items.len()
        invariant
            i <= items.len(),
            views == items@.map_values(|s: String| s@),
            out@ == spec_yaml_items(views.take(i as int), indent@),
        decreases items.len() - i,
    {
        out.append(indent);
        out.append("- ");
        out.append(items[i].as_str());
        out.append("\n");
        proof {
            let t = views.take(i + 1);
            assert(t.drop_last() =~= views.take(i as int));
            assert(t.last() == items@[i as int]@);
            assert(out@ =~= spec_yaml_items(t, indent@));
        }
        i += 1;
    }
    proof {
        assert(views.take(items@.len() as int) =~= views);
    }
    out
}

/// Emits the YAML block of one source.
fn source_yaml(s: &FlatpakSource) -> (r: String)
    ensures
        r@ == spec_source_yaml(s@),
{
    let mut out = String::from_str("  - type: ");
    match s.source_type {
        FlatpakSourceType::Dir => out.append("dir"),
    }
    out.append("\n    path: ");
    out.append(s.path.as_str());
    out.append("\n");
    proof {
        assert(out@ =~= spec_source_yaml(s@));
    }
    out
}

/// Emits the YAML blocks of a module's sources.
fn sources_yaml(sources: &Vec<FlatpakSource>) -> (r: String)
    ensures
        r@ == spec_sources_yaml(sources@.map_values(|s: FlatpakSource| s@)),
{
    let ghost views = sources@.map_values(|s: FlatpakSource| s@);
    let mut out = String::new();
    let mut i: usize = 0;
    while i < sources.len()
        invariant
            i <= sources.len(),
            views == sources@.map_values(|s: FlatpakSource| s@),
            out@ == spec_sources_yaml(views.take(i as int)),
        decreases sources.len() - i,
    {
        let block = source_yaml(&sources[i]);
        out.append(block.as_str());
        proof {
            let t = views.take(i + 1);
            assert(t.drop_last() =~= views.take(i as int));
            assert(t.last() == sources@[i as int]@);
            assert(out@ =~= spec_sources_yaml(t));
        }
        i += 1;
    }
    proof {
        assert(views.take(sources@.len() as int) =~= views);
    }
    out
}

/// Emits the YAML block of one module.
fn module_yaml(m: &FlatpakModule) -> (r: String)
    ensures
        r@ == spec_module_yaml(m@),
{
    let mut out = String::from_str("- name: ");
    out.append(m.name.as_str());
    out.append("\n  buildsystem: ");
    out.append(m.build_system.as_str());
    out.append("\n  build-commands:\n");
    let commands = yaml_items(&m.build_commands, "  ");
    out.append(commands.as_str());
    out.append("  sources:\n");
    let sources = sources_yaml(&m.sources);
    out.append(sources.as_str());
    proof {
        assert(out@ =~= spec_module_yaml(m@));
    }
    out
}

/// Emits the YAML blocks of the manifest's modules.
fn modules_yaml(modules: &Vec<FlatpakModule>) -> (r: String)
    ensures
        r@ == spec_modules_yaml(modules@.map_values(|m: FlatpakModule| m@)),
{
    let ghost views = modules@.map_values(|m: FlatpakModule| m@);
    let mut out = String::new();
    let mut i: usize = 0;
    while i < modules.len()
        invariant
            i <= modules.len(),
            views == modules@.map_values(|m: FlatpakModule| m@),
            out@ == spec_modules_yaml(views.take(i as int)),
        decreases modules.len() - i,
    {
        let block = module_yaml(&modules[i]);
        out.append(block.as_str());
        proof {
            let t = views.take(i + 1);
            assert(t.drop_last() =~= views.take(i as int));
            assert(t.last() == modules@[i as int]@);
            assert(out@ =~= spec_modules_yaml(t));
        }
        i += 1;
    }
    proof {
        assert(views.take(modules@.len() as int) =~= views);
    }
    out
}

/// Serializes a manifest to its YAML text, exactly as `spec_manifest_yaml`
/// states it. Never fails.
pub fn manifest_to_yaml(m: &FlatpakManifest) -> (r: String)
    ensures
        r@ == spec_manifest_yaml(m@),
{
    let mut out = String::from_str("app-id: ");
    out.append(m.app_id.as_str());
    out.append("\nruntime: ");
    out.append(m.runtime.as_str());
    out.append("\nruntime-version: '");
    out.append(m.runtime_version.as_str());
    out.append("'\nsdk: ");
    out.append(m.sdk.as_str());
    out.append("\ncommand: ");
    out.append(m.command.as_str());
    out.append("\nfinish-args:\n");
    let finish_args = yaml_items(&m.finish_args, "");
    out.append(finish_args.as_str());
    out.append("modules:\n");
    let modules = modules_yaml(&m.modules);
    out.append(modules.as_str());
    proof {
        assert(""@ =~= Seq::<char>::empty()) by {
            reveal_strlit("");
        }
        assert(out@ =~= spec_manifest_yaml(m@));
    }
    out
}

} // verus!

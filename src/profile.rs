use vstd::prelude::*;
use crate::language::Language;
use crate::workspace::Workspace;

verus! {

/// One element of a command template: literal text, or a placeholder that is
/// resolved against the workspace when the command is dispatched.
pub enum ArgPart {
    Text(String),
    SourceFile,
    ArtifactFile,
    WorkDir,
    /// A container volume mapping of the source file: `<source>:/code/user.<ext>`.
    SourceMount,
}

/// The mathematical value of an `ArgPart`.
pub ghost enum PartModel {
    Text(Seq<char>),
    SourceFile,
    ArtifactFile,
    WorkDir,
    SourceMount,
}

impl View for ArgPart {
    type V = PartModel;

    open spec fn view(&self) -> PartModel {
        match self {
            ArgPart::Text(s) => PartModel::Text(s@),
            ArgPart::SourceFile => PartModel::SourceFile,
            ArgPart::ArtifactFile => PartModel::ArtifactFile,
            ArgPart::WorkDir => PartModel::WorkDir,
            ArgPart::SourceMount => PartModel::SourceMount,
        }
    }
}

/// A command template: the program, then its arguments.
pub struct CommandSpec {
    pub parts: Vec<ArgPart>,
}

impl View for CommandSpec {
    type V = Seq<PartModel>;

    open spec fn view(&self) -> Seq<PartModel> {
        self.parts@.map_values(|p: ArgPart| p@)
    }
}

/// The recipe for one language: build steps run in order, then the run step.
pub struct LanguageProfile {
    pub language: Language,
    pub build_steps: Vec<CommandSpec>,
    pub run_step: CommandSpec,
}

impl LanguageProfile {
    pub open spec fn build_view(&self) -> Seq<Seq<PartModel>> {
        self.build_steps@.map_values(|c: CommandSpec| c@)
    }
}

/// The text a template part stands for in a given workspace.
pub open spec fn part_text(p: PartModel, ws: Workspace) -> Seq<char> {
    match p {
        PartModel::Text(s) => s,
        PartModel::SourceFile => ws.source_path@,
        PartModel::ArtifactFile => ws.artifact_path@,
        PartModel::WorkDir => ws.dir@,
        PartModel::SourceMount => ws.source_path@ + ":/code/user."@ + ws.extension@,
    }
}

/// The command line a template stands for in a given workspace.
pub open spec fn command_line(c: Seq<PartModel>, ws: Workspace) -> Seq<Seq<char>> {
    c.map_values(|p: PartModel| part_text(p, ws))
}

fn text(s: &str) -> (r: ArgPart)
    ensures
        r@ == PartModel::Text(s@),
{
    ArgPart::Text(s.to_string())
}

/// Resolves one template part against a workspace.
pub fn resolve_part(p: &ArgPart, ws: &Workspace) -> (r: String)
    ensures
        r@ == part_text(p@, *ws),
{
    match p {
        ArgPart::Text(s) => s.clone(),
        ArgPart::SourceFile => ws.source_path.clone(),
        ArgPart::ArtifactFile => ws.artifact_path.clone(),
        ArgPart::WorkDir => ws.dir.clone(),
        ArgPart::SourceMount => {
            let mut m = ws.source_path.clone();
            m.append(":/code/user.");
            m.append(ws.extension.as_str());
            m
        },
    }
}

/// Resolves a command template against a workspace: program first, then the
/// arguments, each placeholder replaced by the path it names.
pub fn resolve_command(c: &CommandSpec, ws: &Workspace) -> (r: Vec<String>)
    ensures
        r@.map_values(|s: String| s@) == command_line(c@, *ws),
{
    let mut r: Vec<String> = Vec::new();
    let mut i: usize = 0;
    while i < c.parts.len()
        invariant
            i <= c.parts@.len(),
            r@.len() == i,
            forall|k: int| 0 <= k < i ==> #[trigger] r@[k]@ == part_text(c.parts@[k]@, *ws),
        decreases c.parts@.len() - i,
    {
        let s = resolve_part(&c.parts[i], ws);
        r.push(s);
        i = i + 1;
    }
    assert(r@.map_values(|s: String| s@) =~= command_line(c@, *ws));
    r
}

pub open spec fn runner_script_spec(l: Language) -> Seq<char> {
    match l {
        Language::Python => "/opt/runners/python_runner.sh"@,
        Language::JavaScript => "/opt/runners/js_runner.sh"@,
        Language::Java => "/opt/runners/java_runner.sh"@,
        Language::Cpp => "/opt/runners/cpp_runner.sh"@,
    }
}

pub open spec fn image_spec(l: Language) -> Seq<char> {
    match l {
        Language::Python => "code-runner-python"@,
        Language::JavaScript => "code-runner-js"@,
        Language::Java => "code-runner-java"@,
        Language::Cpp => "code-runner-cpp"@,
    }
}

/// Delegated execution through a runner script under a restricted identity.
pub open spec fn runner_run_spec(l: Language) -> Seq<PartModel> {
    seq![
        PartModel::Text("sudo"@),
        PartModel::Text("-u"@),
        PartModel::Text("code_runner"@),
        PartModel::Text(runner_script_spec(l)),
        PartModel::SourceFile,
    ]
}

/// Delegated execution in a container without network access, with memory,
/// CPU and process-count ceilings.
pub open spec fn container_run_spec(l: Language) -> Seq<PartModel> {
    seq![
        PartModel::Text("docker"@),
        PartModel::Text("run"@),
        PartModel::Text("--rm"@),
        PartModel::Text("--network"@),
        PartModel::Text("none"@),
        PartModel::Text("--memory=100m"@),
        PartModel::Text("--cpus=0.5"@),
        PartModel::Text("--pids-limit=50"@),
        PartModel::Text("-v"@),
        PartModel::SourceMount,
        PartModel::Text(image_spec(l)),
    ]
}

/// Direct execution on the host: build steps of compiled languages.
pub open spec fn direct_build_spec(l: Language) -> Seq<Seq<PartModel>> {
    match l {
        Language::Python => seq![],
        Language::JavaScript => seq![],
        Language::Java => seq![seq![
            PartModel::Text("javac"@),
            PartModel::Text("-d"@),
            PartModel::WorkDir,
            PartModel::SourceFile,
        ]],
        Language::Cpp => seq![seq![
            PartModel::Text("g++"@),
            PartModel::Text("-O2"@),
            PartModel::Text("-o"@),
            PartModel::ArtifactFile,
            PartModel::SourceFile,
        ]],
    }
}

/// Direct execution on the host: the run step.
pub open spec fn direct_run_spec(l: Language) -> Seq<PartModel> {
    match l {
        Language::Python => seq![PartModel::Text("python3"@), PartModel::SourceFile],
        Language::JavaScript => seq![PartModel::Text("node"@), PartModel::SourceFile],
        Language::Java => seq![
            PartModel::Text("java"@),
            PartModel::Text("-cp"@),
            PartModel::WorkDir,
            PartModel::Text("Main"@),
        ],
        Language::Cpp => seq![PartModel::ArtifactFile],
    }
}

fn runner_script(l: Language) -> (r: String)
    ensures
        r@ == runner_script_spec(l),
{
    match l {
        Language::Python => "/opt/runners/python_runner.sh".to_string(),
        Language::JavaScript => "/opt/runners/js_runner.sh".to_string(),
        Language::Java => "/opt/runners/java_runner.sh".to_string(),
        Language::Cpp => "/opt/runners/cpp_runner.sh".to_string(),
    }
}

fn image(l: Language) -> (r: String)
    ensures
        r@ == image_spec(l),
{
    match l {
        Language::Python => "code-runner-python".to_string(),
        Language::JavaScript => "code-runner-js".to_string(),
        Language::Java => "code-runner-java".to_string(),
        Language::Cpp => "code-runner-cpp".to_string(),
    }
}

/// The profile that hands the source to a per-language runner script, run
/// as the restricted `code_runner` user. The script does its own building.
pub fn runner_profile(l: Language) -> (r: LanguageProfile)
    ensures
        r.language == l,
        r.build_view() == Seq::<Seq<PartModel>>::empty(),
        r.run_step@ == runner_run_spec(l),
{
    let script = runner_script(l);
    let parts = vec![text("sudo"), text("-u"), text("code_runner"), ArgPart::Text(script), ArgPart::SourceFile];
    let run_step = CommandSpec { parts };
    assert(run_step@ =~= runner_run_spec(l));
    let build_steps: Vec<CommandSpec> = Vec::new();
    let r = LanguageProfile { language: l, build_steps, run_step };
    assert(r.build_view() =~= Seq::<Seq<PartModel>>::empty());
    r
}

/// The profile that runs the source in the language's container image.
pub fn container_profile(l: Language) -> (r: LanguageProfile)
    ensures
        r.language == l,
        r.build_view() == Seq::<Seq<PartModel>>::empty(),
        r.run_step@ == container_run_spec(l),
{
    let img = image(l);
    let parts = vec![
        text("docker"),
        text("run"),
        text("--rm"),
        text("--network"),
        text("none"),
        text("--memory=100m"),
        text("--cpus=0.5"),
        text("--pids-limit=50"),
        text("-v"),
        ArgPart::SourceMount,
        ArgPart::Text(img),
    ];
    let run_step = CommandSpec { parts };
    assert(run_step@ =~= container_run_spec(l));
    let build_steps: Vec<CommandSpec> = Vec::new();
    let r = LanguageProfile { language: l, build_steps, run_step };
    assert(r.build_view() =~= Seq::<Seq<PartModel>>::empty());
    r
}

/// The profile that builds and runs on the host with the language's own
/// toolchain: interpreted languages run directly, compiled ones build first.
pub fn direct_profile(l: Language) -> (r: LanguageProfile)
    ensures
        r.language == l,
        r.build_view() == direct_build_spec(l),
        r.run_step@ == direct_run_spec(l),
{
    let mut build_steps: Vec<CommandSpec> = Vec::new();
    let run_step = match l {
        Language::Python => CommandSpec { parts: vec![text("python3"), ArgPart::SourceFile] },
        Language::JavaScript => CommandSpec { parts: vec![text("node"), ArgPart::SourceFile] },
        Language::Java => {
            let javac = CommandSpec {
                parts: vec![text("javac"), text("-d"), ArgPart::WorkDir, ArgPart::SourceFile],
            };
            assert(javac@ =~= direct_build_spec(l)[0]);
            build_steps.push(javac);
            CommandSpec { parts: vec![text("java"), text("-cp"), ArgPart::WorkDir, text("Main")] }
        },
        Language::Cpp => {
            let gpp = CommandSpec {
                parts: vec![
                    text("g++"),
                    text("-O2"),
                    text("-o"),
                    ArgPart::ArtifactFile,
                    ArgPart::SourceFile,
                ],
            };
            assert(gpp@ =~= direct_build_spec(l)[0]);
            build_steps.push(gpp);
            CommandSpec { parts: vec![ArgPart::ArtifactFile] }
        },
    };
    assert(run_step@ =~= direct_run_spec(l));
    let r = LanguageProfile { language: l, build_steps, run_step };
    assert(r.build_view() =~= direct_build_spec(l));
    r
}

} // verus!

//! The commands that scaffold a new project with the generator of its
//! framework.

use vstd::prelude::*;
use vstd::string::StringExecFns;
use crate::packages::{parse_runtime, runtime_named, same_text, Runtime};

verus! {

/// The frameworks for which a project can be created.
#[derive(Clone, Copy, Debug, PartialEq, Eq, Structural)]
pub enum Template {
    Next,
    Vue,
    Nuxt,
}

/// The template that `name` names, if it names one.
pub open spec fn template_named(name: Seq<char>) -> Option<Template> {
    if name == "next.js"@ {
        Some(Template::Next)
    } else if name == "vue"@ {
        Some(Template::Vue)
    } else if name == "nuxt"@ {
        Some(Template::Nuxt)
    } else {
        None
    }
}

/// Reads the name of a template.
pub fn parse_template(name: &str) -> (template: Option<Template>)
    ensures
        template == template_named(name@),
{
    if same_text(name, "next.js") {
        Some(Template::Next)
    } else if same_text(name, "vue") {
        Some(Template::Vue)
    } else if same_text(name, "nuxt") {
        Some(Template::Nuxt)
    } else {
        None
    }
}

/// What creating a project takes.
#[derive(Clone, Debug, PartialEq, Eq)]
pub struct CreationPlan {
    /// The framework whose generator is run.
    pub template: Template,
    /// The directory of the new project.
    pub create_path: String,
    /// The words of the generator's command, to be run where the project
    /// is to lie.
    pub command: Vec<String>,
    /// The command to run in the new project once the generator has
    /// succeeded, where the generator leaves the dependencies uninstalled.
    pub install_command: Option<String>,
}

/// The model of a `CreationPlan`.
pub ghost struct CreationPlanView {
    pub template: Template,
    pub create_path: Seq<char>,
    pub command: Seq<Seq<char>>,
    pub install_command: Option<Seq<char>>,
}

impl View for CreationPlan {
    type V = CreationPlanView;

    open spec fn view(&self) -> CreationPlanView {
        CreationPlanView {
            template: self.template,
            create_path: self.create_path@,
            command: self.command.deep_view(),
            install_command: self.install_command.deep_view(),
        }
    }
}

/// The name of a package manager as it is typed.
pub open spec fn runtime_word(runtime: Runtime) -> Seq<char> {
    match runtime {
        Runtime::Pnpm => "pnpm"@,
        Runtime::Npm => "npm"@,
        Runtime::Yarn => "yarn"@,
    }
}

/// The directory of a new project: its name below `location`, joined by
/// the separator of the system.
pub open spec fn create_path(location: Seq<char>, project_name: Seq<char>, windows: bool) -> Seq<
    char,
> {
    location + (if windows {
        "\\"@
    } else {
        "/"@
    }) + project_name
}

/// The options with which a Next.js project is generated.
pub open spec fn next_options() -> Seq<Seq<char>> {
    seq!["--ts"@, "--eslint"@, "--tailwind"@, "--src-dir"@, "--app"@, "--no-import-alias"@]
}

/// The generator's command as a list of words, as it is run on Windows.
/// A Next.js project is named by its directory, the others by their name.
pub open spec fn creation_words(
    runtime: Runtime,
    template: Template,
    project_name: Seq<char>,
    path: Seq<char>,
) -> Seq<Seq<char>> {
    match (template, runtime) {
        (Template::Next, Runtime::Pnpm) => seq!["pnpm"@, "dlx"@, "create-next-app"@, path]
            + next_options(),
        (Template::Next, Runtime::Npm) => seq!["npx"@, "create-next-app@latest"@, path, "--yes"@]
            + next_options(),
        (Template::Next, Runtime::Yarn) => seq!["yarn"@, "create"@, "next-app"@, path]
            + next_options(),
        (Template::Vue, Runtime::Pnpm) => seq![
            "pnpm"@,
            "create"@,
            "vue@latest"@,
            project_name,
            "--typescript"@,
            "--eslint-with-prettier"@,
        ],
        (Template::Vue, Runtime::Npm) => seq![
            "npm"@,
            "create"@,
            "vue@latest"@,
            project_name,
            "--typescript"@,
            "--eslint-with-prettier"@,
        ],
        (Template::Vue, Runtime::Yarn) => seq![
            "yarn"@,
            "dlx"@,
            "create-vue@latest"@,
            project_name,
            "--typescript"@,
            "--eslint-with-prettier"@,
        ],
        (Template::Nuxt, Runtime::Pnpm) => seq![
            "pnpm"@,
            "dlx"@,
            "nuxi@latest"@,
            "init"@,
            project_name,
            "--gitInit"@,
            "--packageManager"@,
            "pnpm"@,
        ],
        (Template::Nuxt, Runtime::Npm) => seq![
            "npx"@,
            "nuxi@latest"@,
            "init"@,
            project_name,
            "--gitInit"@,
            "--packageManager"@,
            "npm"@,
        ],
        (Template::Nuxt, Runtime::Yarn) => seq![
            "yarn"@,
            "dlx"@,
            "nuxi@latest"@,
            "init"@,
            project_name,
            "--gitInit"@,
            "--packageManager"@,
            "yarn"@,
        ],
    }
}

/// What stands before the project's name in the generator's command line.
pub open spec fn creation_prefix(runtime: Runtime, template: Template) -> Seq<char> {
    match (template, runtime) {
        (Template::Next, Runtime::Pnpm) => "pnpm dlx create-next-app "@,
        (Template::Next, Runtime::Npm) => "npx create-next-app "@,
        (Template::Next, Runtime::Yarn) => "yarn create next-app "@,
        (Template::Vue, Runtime::Pnpm) => "pnpm create vue@latest "@,
        (Template::Vue, Runtime::Npm) => "npm create vue@latest "@,
        (Template::Vue, Runtime::Yarn) => "yarn dlx create-vue@latest "@,
        (Template::Nuxt, Runtime::Pnpm) => "pnpm dlx nuxi@latest init "@,
        (Template::Nuxt, Runtime::Npm) => "npx nuxi@latest init "@,
        (Template::Nuxt, Runtime::Yarn) => "yarn dlx nuxi@latest init "@,
    }
}

/// What stands after the project's name in the generator's command line.
pub open spec fn creation_suffix(runtime: Runtime, template: Template) -> Seq<char> {
    match template {
        Template::Next => " --ts --eslint --tailwind --src-dir --app --no-import-alias"@,
        Template::Vue => " -- --typescript --eslint-with-prettier"@,
        Template::Nuxt => "  --gitInit --packageManager "@ + runtime_word(runtime),
    }
}

/// The plan for creating the project `project_name` below `location`.
///
/// On Windows the generator's command is a list of words; elsewhere it is
/// one line for the shell, in which the project is always named by its
/// name. Only the generator of Vue leaves the dependencies to be installed
/// afterwards.
pub open spec fn creation_plan(
    runtime: Runtime,
    template: Template,
    project_name: Seq<char>,
    location: Seq<char>,
    windows: bool,
) -> CreationPlanView {
    let path = create_path(location, project_name, windows);
    CreationPlanView {
        template,
        create_path: path,
        command: if windows {
            creation_words(runtime, template, project_name, path)
        } else {
            seq![
                creation_prefix(runtime, template) + project_name + creation_suffix(
                    runtime,
                    template,
                ),
            ]
        },
        install_command: if template == Template::Vue {
            Some(runtime_word(runtime) + " i"@)
        } else {
            None
        },
    }
}

/// What `start_project_creation` decides: a plan where both names are
/// known, a refusal otherwise.
pub open spec fn creation_decision(
    runtime: Seq<char>,
    framework: Seq<char>,
    project_name: Seq<char>,
    location: Seq<char>,
    windows: bool,
) -> Result<CreationPlanView, Seq<char>> {
    match (runtime_named(runtime), template_named(framework)) {
        (Some(r), Some(t)) => Ok(creation_plan(r, t, project_name, location, windows)),
        _ => Err("Error: Unsupported runtime or frameworks"@),
    }
}

/// The model of the result of `start_project_creation`.
pub open spec fn creation_view(r: Result<CreationPlan, String>) -> Result<
    CreationPlanView,
    Seq<char>,
> {
    match r {
        Ok(plan) => Ok(plan@),
        Err(text) => Err(text@),
    }
}

/// Puts one more word at the end of a list of words.
fn push_word(words: &mut Vec<String>, word: &str)
    ensures
        final(words).deep_view() == old(words).deep_view().push(word@),
{
    words.push(word.to_owned());
}

/// Puts the options of a Next.js project at the end of a list of words.
fn push_next_options(words: &mut Vec<String>)
    ensures
        final(words).deep_view() == old(words).deep_view() + next_options(),
{
    push_word(words, "--ts");
    push_word(words, "--eslint");
    push_word(words, "--tailwind");
    push_word(words, "--src-dir");
    push_word(words, "--app");
    push_word(words, "--no-import-alias");
}

/// The name of a package manager as it is typed.
pub fn runtime_name(runtime: Runtime) -> (name: &'static str)
    ensures
        name@ == runtime_word(runtime),
{
    match runtime {
        Runtime::Pnpm => "pnpm",
        Runtime::Npm => "npm",
        Runtime::Yarn => "yarn",
    }
}

/// The generator's command as a list of words.
fn words_for(runtime: Runtime, template: Template, project_name: &str, path: &str) -> (words: Vec<
    String,
>)
    ensures
        words.deep_view() == creation_words(runtime, template, project_name@, path@),
{
    let mut words: Vec<String> = Vec::new();
    match template {
        Template::Next => {
            match runtime {
                Runtime::Pnpm => {
                    push_word(&mut words, "pnpm");
                    push_word(&mut words, "dlx");
                    push_word(&mut words, "create-next-app");
                    push_word(&mut words, path);
                },
                Runtime::Npm => {
                    push_word(&mut words, "npx");
                    push_word(&mut words, "create-next-app@latest");
                    push_word(&mut words, path);
                    push_word(&mut words, "--yes");
                },
                Runtime::Yarn => {
                    push_word(&mut words, "yarn");
                    push_word(&mut words, "create");
                    push_word(&mut words, "next-app");
                    push_word(&mut words, path);
                },
            }
            push_next_options(&mut words);
        },
        Template::Vue => {
            match runtime {
                Runtime::Pnpm => {
                    push_word(&mut words, "pnpm");
                    push_word(&mut words, "create");
                    push_word(&mut words, "vue@latest");
                },
                Runtime::Npm => {
                    push_word(&mut words, "npm");
                    push_word(&mut words, "create");
                    push_word(&mut words, "vue@latest");
                },
                Runtime::Yarn => {
                    push_word(&mut words, "yarn");
                    push_word(&mut words, "dlx");
                    push_word(&mut words, "create-vue@latest");
                },
            }
            push_word(&mut words, project_name);
            push_word(&mut words, "--typescript");
            push_word(&mut words, "--eslint-with-prettier");
        },
        Template::Nuxt => {
            match runtime {
                Runtime::Pnpm => {
                    push_word(&mut words, "pnpm");
                    push_word(&mut words, "dlx");
                },
                Runtime::Npm => {
                    push_word(&mut words, "npx");
                },
                Runtime::Yarn => {
                    push_word(&mut words, "yarn");
                    push_word(&mut words, "dlx");
                },
            }
            push_word(&mut words, "nuxi@latest");
            push_word(&mut words, "init");
            push_word(&mut words, project_name);
            push_word(&mut words, "--gitInit");
            push_word(&mut words, "--packageManager");
            push_word(&mut words, runtime_name(runtime));
        },
    }
    words
}

/// The generator's command as one line for the shell.
fn line_for(runtime: Runtime, template: Template, project_name: &str) -> (line: String)
    ensures
        line@ == creation_prefix(runtime, template) + project_name@ + creation_suffix(
            runtime,
            template,
        ),
{
    let prefix = match template {
        Template::Next => match runtime {
            Runtime::Pnpm => "pnpm dlx create-next-app ",
            Runtime::Npm => "npx create-next-app ",
            Runtime::Yarn => "yarn create next-app ",
        },
        Template::Vue => match runtime {
            Runtime::Pnpm => "pnpm create vue@latest ",
            Runtime::Npm => "npm create vue@latest ",
            Runtime::Yarn => "yarn dlx create-vue@latest ",
        },
        Template::Nuxt => match runtime {
            Runtime::Pnpm => "pnpm dlx nuxi@latest init ",
            Runtime::Npm => "npx nuxi@latest init ",
            Runtime::Yarn => "yarn dlx nuxi@latest init ",
        },
    };
    let mut line = prefix.to_owned();
    line.append(project_name);
    match template {
        Template::Next => {
            line.append(" --ts --eslint --tailwind --src-dir --app --no-import-alias");
        },
        Template::Vue => {
            line.append(" -- --typescript --eslint-with-prettier");
        },
        Template::Nuxt => {
            line.append("  --gitInit --packageManager ");
            line.append(runtime_name(runtime));
        },
    }
    line
}

/// Decides how the project `project_name` is created below `location` with
/// the package manager named `runtime` and the generator of the framework
/// named `framework`.
pub fn start_project_creation(
    runtime: &str,
    framework: &str,
    project_name: &str,
    location: &str,
    windows: bool,
) -> (r: Result<CreationPlan, String>)
    ensures
        creation_view(r) == creation_decision(
            runtime@,
            framework@,
            project_name@,
            location@,
            windows,
        ),
{
    let known = match (parse_runtime(runtime), parse_template(framework)) {
        (Some(r), Some(t)) => (r, t),
        _ => { return Err("Error: Unsupported runtime or frameworks".to_owned()); },
    };
    let mut path = location.to_owned();
    path.append(if windows {
        "\\"
    } else {
        "/"
    });
    path.append(project_name);
    let command = if windows {
        words_for(known.0, known.1, project_name, path.as_str())
    } else {
        let mut one: Vec<String> = Vec::new();
        let line = line_for(known.0, known.1, project_name);
        one.push(line);
        assert(one.deep_view() =~= seq![line@]);
        one
    };
    let install_command = match known.1 {
        Template::Vue => {
            let mut install = runtime_name(known.0).to_owned();
            install.append(" i");
            Some(install)
        },
        _ => None,
    };
    Ok(CreationPlan { template: known.1, create_path: path, command, install_command })
}

} // verus!

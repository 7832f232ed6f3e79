//! Which package manager and which framework a project uses, read from the
//! lock files of its directory and from the dependencies of its manifest.

use vstd::prelude::*;
use vstd::string::StringExecFns;

verus! {

/// The package manager of a project, by the lock files found in its
/// directory: pnpm's lock file wins over yarn's, and npm is assumed where
/// neither is there.
pub fn detect_runtime_version(pnpm_lock_exists: bool, yarn_lock_exists: bool) -> (runtime: String)
    ensures
        runtime@ == (if pnpm_lock_exists {
            "pnpm"@
        } else if yarn_lock_exists {
            "yarn"@
        } else {
            "npm"@
        }),
{
    if pnpm_lock_exists {
        "pnpm".to_owned()
    } else if yarn_lock_exists {
        "yarn".to_owned()
    } else {
        "npm".to_owned()
    }
}

/// The package manager of a project as `detect_runtime_version` finds it,
/// but with npm named only where npm's own lock file is there: a directory
/// with none of the three lock files has no package manager.
pub fn detect_runtime(
    pnpm_lock_exists: bool,
    yarn_lock_exists: bool,
    npm_lock_exists: bool,
) -> (runtime: Result<String, String>)
    ensures
        match runtime {
            Ok(name) => (pnpm_lock_exists || yarn_lock_exists || npm_lock_exists) && name@ == (
            if pnpm_lock_exists {
                "pnpm"@
            } else if yarn_lock_exists {
                "yarn"@
            } else {
                "npm"@
            }),
            Err(text) => !pnpm_lock_exists && !yarn_lock_exists && !npm_lock_exists && text@
                == "No supported package manager lock file found"@,
        },
{
    if pnpm_lock_exists || yarn_lock_exists || npm_lock_exists {
        Ok(detect_runtime_version(pnpm_lock_exists, yarn_lock_exists))
    } else {
        Err("No supported package manager lock file found".to_owned())
    }
}

/// One entry of a manifest's table of dependencies.
#[derive(Clone, Debug, PartialEq, Eq)]
pub struct Dependency {
    /// The name of the package.
    pub name: String,
    /// The version asked for, where the manifest gives it as a text.
    pub version: Option<String>,
}

/// The model of a `Dependency`.
pub ghost struct DependencyView {
    pub name: Seq<char>,
    pub version: Option<Seq<char>>,
}

impl View for Dependency {
    type V = DependencyView;

    open spec fn view(&self) -> DependencyView {
        DependencyView { name: self.name@, version: self.version.deep_view() }
    }
}

impl DeepView for Dependency {
    type V = DependencyView;

    open spec fn deep_view(&self) -> DependencyView {
        self@
    }
}

/// What the library reads of a project manifest: its two tables of
/// dependencies, each in the order in which the manifest is walked.
#[derive(Clone, Debug, PartialEq, Eq)]
pub struct Manifest {
    /// The packages the project runs with.
    pub dependencies: Vec<Dependency>,
    /// The packages it is developed with.
    pub dev_dependencies: Vec<Dependency>,
}

/// The model of a `Manifest`.
pub ghost struct ManifestView {
    pub dependencies: Seq<DependencyView>,
    pub dev_dependencies: Seq<DependencyView>,
}

impl View for Manifest {
    type V = ManifestView;

    open spec fn view(&self) -> ManifestView {
        ManifestView {
            dependencies: self.dependencies.deep_view(),
            dev_dependencies: self.dev_dependencies.deep_view(),
        }
    }
}

/// What `serde_json` reads under the key `key` of the JSON text `text`: the
/// entries of the object that stands there, in the order in which
/// `serde_json` walks them, each with its value where that is a text; no
/// entry where no object stands there; or, where the text is not JSON, the
/// words of `serde_json` for what is wrong with it.
pub uninterp spec fn dependency_table(text: Seq<char>, key: Seq<char>) -> Result<
    Seq<DependencyView>,
    Seq<char>,
>;

/// The model of a table of dependencies that was read, or of the words for
/// why it could not be read.
pub open spec fn table_view(r: Result<Vec<Dependency>, String>) -> Result<
    Seq<DependencyView>,
    Seq<char>,
> {
    match r {
        Ok(table) => Ok(table.deep_view()),
        Err(text) => Err(text@),
    }
}

/// `serde_json::from_str` parses the text into a `serde_json::Value`, or
/// fails with an error whose `to_string` is handed on. `Value::get` with
/// `key`, then `Value::as_object`, give the object under that key, if one
/// is there; its entries are copied in the order of `Map::iter`, each with
/// what `Value::as_str` gives for its value. All of it depends on the two
/// texts alone and is named by `dependency_table`; nothing more is claimed.
#[verifier::external_body]
fn read_dependency_table(text: &str, key: &str) -> (r: Result<Vec<Dependency>, String>)
    ensures
        table_view(r) == dependency_table(text@, key@),
{
    let json: serde_json::Value = match serde_json::from_str(text) {
        Ok(json) => json,
        Err(e) => return Err(e.to_string()),
    };
    Ok(match json.get(key).and_then(serde_json::Value::as_object) {
        Some(table) => table.iter().map(|(name, version)| Dependency {
            name: name.clone(),
            version: version.as_str().map(str::to_owned),
        }).collect(),
        None => Vec::new(),
    })
}

/// What a manifest text holds for the library: its table `dependencies`
/// and its table `devDependencies`, or the reason why the text could not
/// be read.
pub open spec fn manifest_of(text: Seq<char>) -> Result<ManifestView, Seq<char>> {
    match dependency_table(text, "dependencies"@) {
        Err(reason) => Err(reason),
        Ok(dependencies) => match dependency_table(text, "devDependencies"@) {
            Err(reason) => Err(reason),
            Ok(dev_dependencies) => Ok(ManifestView { dependencies, dev_dependencies }),
        },
    }
}

/// The model of a manifest that was read, or of the words for why it could
/// not be read.
pub open spec fn manifest_view(r: Result<Manifest, String>) -> Result<ManifestView, Seq<char>> {
    match r {
        Ok(manifest) => Ok(manifest@),
        Err(text) => Err(text@),
    }
}

/// Reads the two tables of dependencies from the text of a manifest.
pub fn parse_manifest(text: &str) -> (r: Result<Manifest, String>)
    ensures
        manifest_view(r) == manifest_of(text@),
{
    let dependencies = match read_dependency_table(text, "dependencies") {
        Ok(table) => table,
        Err(reason) => { return Err(reason); },
    };
    let dev_dependencies = match read_dependency_table(text, "devDependencies") {
        Ok(table) => table,
        Err(reason) => { return Err(reason); },
    };
    Ok(Manifest { dependencies, dev_dependencies })
}

/// A package of a project with the version that its manifest asks for.
#[derive(Clone, Debug, PartialEq, Eq)]
pub struct Package {
    pub name: String,
    pub version: String,
}

/// The model of a `Package`.
pub ghost struct PackageView {
    pub name: Seq<char>,
    pub version: Seq<char>,
}

impl View for Package {
    type V = PackageView;

    open spec fn view(&self) -> PackageView {
        PackageView { name: self.name@, version: self.version@ }
    }
}

impl DeepView for Package {
    type V = PackageView;

    open spec fn deep_view(&self) -> PackageView {
        self@
    }
}

/// What is known of a project: its framework, its package manager and its
/// packages.
#[derive(Clone, Debug, PartialEq, Eq)]
pub struct ProjectInfo {
    pub framework: String,
    pub runtime: String,
    pub packages: Vec<Package>,
}

/// The frameworks whose development server can be launched.
#[derive(Clone, Copy, Debug, PartialEq, Eq, Structural)]
pub enum Framework {
    Next,
    React,
    Nuxt,
    Vue,
    Unknown,
}

/// Whether a table of dependencies names the package `name`.
pub open spec fn names_package(dependencies: Seq<DependencyView>, name: Seq<char>) -> bool {
    exists|i: int| 0 <= i < dependencies.len() && #[trigger] dependencies[i].name == name
}

/// The framework of a project by its dependencies. Where several of the
/// packages are named, Next.js wins over React, React over Nuxt, and Nuxt
/// over Vue.
pub open spec fn framework_of(dependencies: Seq<DependencyView>) -> Framework {
    if names_package(dependencies, "next"@) {
        Framework::Next
    } else if names_package(dependencies, "react"@) {
        Framework::React
    } else if names_package(dependencies, "nuxt"@) {
        Framework::Nuxt
    } else if names_package(dependencies, "vue"@) {
        Framework::Vue
    } else {
        Framework::Unknown
    }
}

/// The name under which a framework is shown.
pub open spec fn framework_name(framework: Framework) -> Seq<char> {
    match framework {
        Framework::Next => "Next.js"@,
        Framework::React => "React"@,
        Framework::Nuxt => "Nuxt.js"@,
        Framework::Vue => "Vue.js"@,
        Framework::Unknown => "Unknown"@,
    }
}

/// The script of a framework's development server, as a path below the
/// project directory, with the separators of the system.
pub open spec fn dev_script(framework: Framework, windows: bool) -> Seq<char> {
    match framework {
        Framework::Next => if windows {
            "\\node_modules\\next\\dist\\bin\\next"@
        } else {
            "/node_modules/next/dist/bin/next"@
        },
        Framework::React => if windows {
            "\\node_modules\\react-scripts\\scripts\\start.js"@
        } else {
            "/node_modules/react-scripts/scripts/start.js"@
        },
        Framework::Nuxt => if windows {
            "\\node_modules\\nuxt\\bin\\nuxt.mjs"@
        } else {
            "/node_modules/nuxt/bin/nuxt.mjs"@
        },
        Framework::Vue => if windows {
            "\\node_modules\\vite\\dist\\node\\cli.js"@
        } else {
            "/node_modules/vite/dist/node/cli.js"@
        },
        Framework::Unknown => ""@,
    }
}

/// The closing quote of the script and the argument that the script takes.
pub open spec fn dev_suffix(framework: Framework) -> Seq<char> {
    match framework {
        Framework::Next => "\" dev"@,
        Framework::Nuxt => "\" dev"@,
        _ => "\""@,
    }
}

/// The launch command of a framework for the project at `path`: node, then
/// the script in double quotes, then the script's own argument if it takes
/// one. A project of unknown framework has the empty command.
pub open spec fn launch_command(framework: Framework, path: Seq<char>, windows: bool) -> Seq<char> {
    if framework == Framework::Unknown {
        ""@
    } else {
        "node \""@ + path + dev_script(framework, windows) + dev_suffix(framework)
    }
}

/// Whether `dependencies` names the package `name`.
pub fn has_dependency(dependencies: &Vec<Dependency>, name: &str) -> (found: bool)
    ensures
        found == names_package(dependencies.deep_view(), name@),
{
    let wanted = name.to_owned();
    let mut i: usize = 0;
    while i < dependencies.len()
        invariant
            i <= dependencies.len(),
            wanted@ == name@,
            forall|j: int| 0 <= j < i ==> dependencies[j].name@ != name@,
        decreases dependencies.len() - i,
    {
        if dependencies[i].name == wanted {
            assert(dependencies.deep_view()[i as int].name == name@);
            return true;
        }
        i += 1;
    }
    false
}

/// The framework of a project by the dependencies of its manifest.
pub fn classify_framework(manifest: &Manifest) -> (framework: Framework)
    ensures
        framework == framework_of(manifest.dependencies.deep_view()),
{
    if has_dependency(&manifest.dependencies, "next") {
        Framework::Next
    } else if has_dependency(&manifest.dependencies, "react") {
        Framework::React
    } else if has_dependency(&manifest.dependencies, "nuxt") {
        Framework::Nuxt
    } else if has_dependency(&manifest.dependencies, "vue") {
        Framework::Vue
    } else {
        Framework::Unknown
    }
}

/// The name of the project's framework and the command that launches its
/// development server for the project at `path`. `windows` says whether the
/// path is written with backslashes.
pub fn detect_framework(manifest: &Manifest, path: &str, windows: bool) -> (r: (String, String))
    ensures
        r.0@ == framework_name(framework_of(manifest.dependencies.deep_view())),
        r.1@ == launch_command(framework_of(manifest.dependencies.deep_view()), path@, windows),
{
    let framework = classify_framework(manifest);
    let (name, script, suffix): (&str, &str, &str) = match framework {
        Framework::Next => (
            "Next.js",
            if windows {
                "\\node_modules\\next\\dist\\bin\\next"
            } else {
                "/node_modules/next/dist/bin/next"
            },
            "\" dev",
        ),
        Framework::React => (
            "React",
            if windows {
                "\\node_modules\\react-scripts\\scripts\\start.js"
            } else {
                "/node_modules/react-scripts/scripts/start.js"
            },
            "\"",
        ),
        Framework::Nuxt => (
            "Nuxt.js",
            if windows {
                "\\node_modules\\nuxt\\bin\\nuxt.mjs"
            } else {
                "/node_modules/nuxt/bin/nuxt.mjs"
            },
            "\" dev",
        ),
        Framework::Vue => (
            "Vue.js",
            if windows {
                "\\node_modules\\vite\\dist\\node\\cli.js"
            } else {
                "/node_modules/vite/dist/node/cli.js"
            },
            "\"",
        ),
        Framework::Unknown => { return ("Unknown".to_owned(), "".to_owned()); },
    };
    let mut command = "node \"".to_owned();
    command.append(path);
    command.append(script);
    command.append(suffix);
    (name.to_owned(), command)
}

/// The package that a dependency stands for: a version that the manifest
/// does not give as a text is shown as unknown.
pub open spec fn package_of(dependency: DependencyView) -> PackageView {
    PackageView {
        name: dependency.name,
        version: match dependency.version {
            Some(version) => version,
            None => "unknown"@,
        },
    }
}

/// The packages of a table of dependencies, in the table's order.
pub open spec fn packages_of(dependencies: Seq<DependencyView>) -> Seq<PackageView> {
    Seq::new(dependencies.len(), |i: int| package_of(dependencies[i]))
}

/// Adds the packages of one table to `packages`.
fn push_packages(packages: &mut Vec<Package>, dependencies: &Vec<Dependency>)
    ensures
        final(packages).deep_view() == old(packages).deep_view() + packages_of(
            dependencies.deep_view(),
        ),
{
    let ghost before = packages.deep_view();
    let mut i: usize = 0;
    while i < dependencies.len()
        invariant
            i <= dependencies.len(),
            packages.deep_view() == before + packages_of(
                dependencies.deep_view().subrange(0, i as int),
            ),
        decreases dependencies.len() - i,
    {
        let dependency = &dependencies[i];
        let version = match &dependency.version {
            Some(version) => version.clone(),
            None => "unknown".to_owned(),
        };
        let package = Package { name: dependency.name.clone(), version };
        let ghost sofar = packages.deep_view();
        packages.push(package);
        proof {
            assert(packages.deep_view() =~= sofar.push(package@));
        }
        i += 1;
    }
}

/// The packages of a project: those it runs with, then those it is
/// developed with.
pub fn extract_packages(manifest: &Manifest) -> (packages: Vec<Package>)
    ensures
        packages.deep_view() == packages_of(manifest.dependencies.deep_view()) + packages_of(
            manifest.dev_dependencies.deep_view(),
        ),
{
    let mut packages: Vec<Package> = Vec::new();
    push_packages(&mut packages, &manifest.dependencies);
    push_packages(&mut packages, &manifest.dev_dependencies);
    packages
}

/// The model of a `ProjectInfo`.
pub ghost struct ProjectInfoView {
    pub framework: Seq<char>,
    pub runtime: Seq<char>,
    pub packages: Seq<PackageView>,
}

impl View for ProjectInfo {
    type V = ProjectInfoView;

    open spec fn view(&self) -> ProjectInfoView {
        ProjectInfoView {
            framework: self.framework@,
            runtime: self.runtime@,
            packages: self.packages.deep_view(),
        }
    }
}

/// What is known of a project with the given manifest and lock files: the
/// name of its framework, its package manager, and its packages, those it
/// runs with before those it is developed with.
pub open spec fn project_info(
    manifest: ManifestView,
    pnpm_lock_exists: bool,
    yarn_lock_exists: bool,
) -> ProjectInfoView {
    ProjectInfoView {
        framework: framework_name(framework_of(manifest.dependencies)),
        runtime: if pnpm_lock_exists {
            "pnpm"@
        } else if yarn_lock_exists {
            "yarn"@
        } else {
            "npm"@
        },
        packages: packages_of(manifest.dependencies) + packages_of(manifest.dev_dependencies),
    }
}

/// Describes the project with the given manifest, given which lock files
/// its directory holds.
pub fn describe_project(manifest: &Manifest, pnpm_lock_exists: bool, yarn_lock_exists: bool) -> (info:
    ProjectInfo)
    ensures
        info@ == project_info(manifest@, pnpm_lock_exists, yarn_lock_exists),
{
    let (framework, _command) = detect_framework(manifest, "", false);
    let runtime = detect_runtime_version(pnpm_lock_exists, yarn_lock_exists);
    let packages = extract_packages(manifest);
    ProjectInfo { framework, runtime, packages }
}

/// What `analyze_project` returns for the text of a manifest: the
/// description of the project, or the reason why the text could not be
/// read.
pub open spec fn analysis_of(
    package_json: Seq<char>,
    pnpm_lock_exists: bool,
    yarn_lock_exists: bool,
) -> Result<ProjectInfoView, Seq<char>> {
    match manifest_of(package_json) {
        Ok(manifest) => Ok(project_info(manifest, pnpm_lock_exists, yarn_lock_exists)),
        Err(reason) => Err("Failed to parse package.json: "@ + reason),
    }
}

/// The model of the result of `analyze_project`.
pub open spec fn analysis_view(r: Result<ProjectInfo, String>) -> Result<
    ProjectInfoView,
    Seq<char>,
> {
    match r {
        Ok(info) => Ok(info@),
        Err(text) => Err(text@),
    }
}

/// Describes the project whose manifest has the text `package_json`, given
/// which lock files its directory holds.
pub fn analyze_project(package_json: &str, pnpm_lock_exists: bool, yarn_lock_exists: bool) -> (r:
    Result<ProjectInfo, String>)
    ensures
        analysis_view(r) == analysis_of(package_json@, pnpm_lock_exists, yarn_lock_exists),
{
    match parse_manifest(package_json) {
        Ok(manifest) => Ok(describe_project(&manifest, pnpm_lock_exists, yarn_lock_exists)),
        Err(reason) => {
            let mut text = "Failed to parse package.json: ".to_owned();
            text.append(reason.as_str());
            Err(text)
        },
    }
}

/// A project of unknown framework has no launch command, and every other
/// project has one that is not empty.
pub proof fn lemma_launch_command_empty_iff_unknown(
    framework: Framework,
    path: Seq<char>,
    windows: bool,
)
    ensures
        launch_command(framework, path, windows).len() == 0 <==> framework == Framework::Unknown,
{
    reveal_strlit("");
    reveal_strlit("node \"");
}

} // verus!

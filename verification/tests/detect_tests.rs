use project_runner::detect::{
    analyze_project, classify_framework, describe_project, detect_framework, detect_runtime,
    detect_runtime_version, extract_packages, has_dependency, parse_manifest, Dependency,
    Framework, Manifest, Package,
};
use project_runner::launch::{plan_start, StartError};

fn dep(name: &str, version: Option<&str>) -> Dependency {
    Dependency { name: name.to_string(), version: version.map(|v| v.to_string()) }
}

fn manifest(names: &[&str]) -> Manifest {
    Manifest {
        dependencies: names.iter().map(|n| dep(n, Some("1.0.0"))).collect(),
        dev_dependencies: Vec::new(),
    }
}

#[test]
fn pnpm_lock_wins() {
    assert_eq!(detect_runtime_version(true, true), "pnpm");
    assert_eq!(detect_runtime_version(true, false), "pnpm");
}

#[test]
fn yarn_lock_is_second() {
    assert_eq!(detect_runtime_version(false, true), "yarn");
}

#[test]
fn npm_is_the_default() {
    assert_eq!(detect_runtime_version(false, false), "npm");
}

#[test]
fn runtime_needs_a_lock_file() {
    assert_eq!(
        detect_runtime(false, false, false),
        Err("No supported package manager lock file found".to_string())
    );
    assert_eq!(detect_runtime(false, false, true), Ok("npm".to_string()));
    assert_eq!(detect_runtime(false, true, true), Ok("yarn".to_string()));
    assert_eq!(detect_runtime(true, true, true), Ok("pnpm".to_string()));
}

#[test]
fn next_project_on_unix() {
    let (name, command) = detect_framework(&manifest(&["react", "next"]), "/home/me/site", false);
    assert_eq!(name, "Next.js");
    assert_eq!(command, "node \"/home/me/site/node_modules/next/dist/bin/next\" dev");
}

#[test]
fn next_project_on_windows() {
    let (name, command) = detect_framework(&manifest(&["next"]), "C:\\sites\\a", true);
    assert_eq!(name, "Next.js");
    assert_eq!(command, "node \"C:\\sites\\a\\node_modules\\next\\dist\\bin\\next\" dev");
}

#[test]
fn react_project() {
    let (name, command) = detect_framework(&manifest(&["react", "vue"]), "/p", false);
    assert_eq!(name, "React");
    assert_eq!(command, "node \"/p/node_modules/react-scripts/scripts/start.js\"");
    let (_, windows) = detect_framework(&manifest(&["react"]), "C:\\p", true);
    assert_eq!(windows, "node \"C:\\p\\node_modules\\react-scripts\\scripts\\start.js\"");
}

#[test]
fn nuxt_project() {
    let (name, command) = detect_framework(&manifest(&["vue", "nuxt"]), "/p", false);
    assert_eq!(name, "Nuxt.js");
    assert_eq!(command, "node \"/p/node_modules/nuxt/bin/nuxt.mjs\" dev");
    let (_, windows) = detect_framework(&manifest(&["nuxt"]), "C:\\p", true);
    assert_eq!(windows, "node \"C:\\p\\node_modules\\nuxt\\bin\\nuxt.mjs\" dev");
}

#[test]
fn vue_project() {
    let (name, command) = detect_framework(&manifest(&["lodash", "vue"]), "/p", false);
    assert_eq!(name, "Vue.js");
    assert_eq!(command, "node \"/p/node_modules/vite/dist/node/cli.js\"");
    let (_, windows) = detect_framework(&manifest(&["vue"]), "C:\\p", true);
    assert_eq!(windows, "node \"C:\\p\\node_modules\\vite\\dist\\node\\cli.js\"");
}

#[test]
fn unknown_project_has_no_command() {
    let (name, command) = detect_framework(&manifest(&["lodash"]), "/p", false);
    assert_eq!(name, "Unknown");
    assert_eq!(command, "");
    assert_eq!(plan_start(&command, "/p", false), Err(StartError::UnsupportedFramework));
}

#[test]
fn dev_dependencies_do_not_name_the_framework() {
    let m = Manifest {
        dependencies: Vec::new(),
        dev_dependencies: vec![dep("next", Some("14.0.0"))],
    };
    assert_eq!(classify_framework(&m), Framework::Unknown);
}

#[test]
fn has_dependency_compares_whole_names() {
    let deps = vec![dep("next-auth", None), dep("vue", None)];
    assert!(!has_dependency(&deps, "next"));
    assert!(has_dependency(&deps, "vue"));
    assert!(!has_dependency(&Vec::new(), "vue"));
}

#[test]
fn detected_command_resolves_with_spaces_in_the_path() {
    let (_, command) = detect_framework(&manifest(&["next"]), "/home/me/my site", false);
    let plan = plan_start(&command, "/home/me/my site", false).unwrap();
    assert_eq!(plan.executable, "node");
    assert_eq!(
        plan.args,
        vec!["/home/me/my site/node_modules/next/dist/bin/next".to_string(), "dev".to_string()]
    );
}

#[test]
fn packages_in_order_with_unknown_versions() {
    let m = Manifest {
        dependencies: vec![dep("next", Some("14.1.0")), dep("local", None)],
        dev_dependencies: vec![dep("eslint", Some("^8"))],
    };
    assert_eq!(
        extract_packages(&m),
        vec![
            Package { name: "next".to_string(), version: "14.1.0".to_string() },
            Package { name: "local".to_string(), version: "unknown".to_string() },
            Package { name: "eslint".to_string(), version: "^8".to_string() },
        ]
    );
}

#[test]
fn no_dependencies_no_packages() {
    let m = Manifest { dependencies: Vec::new(), dev_dependencies: Vec::new() };
    assert!(extract_packages(&m).is_empty());
}

#[test]
fn project_is_described() {
    let m = Manifest {
        dependencies: vec![dep("vue", Some("3.4.0"))],
        dev_dependencies: vec![dep("vite", Some("5.0.0"))],
    };
    let info = describe_project(&m, false, true);
    assert_eq!(info.framework, "Vue.js");
    assert_eq!(info.runtime, "yarn");
    assert_eq!(
        info.packages,
        vec![
            Package { name: "vue".to_string(), version: "3.4.0".to_string() },
            Package { name: "vite".to_string(), version: "5.0.0".to_string() },
        ]
    );
}

const SHOP: &str = r#"{
  "name": "shop",
  "dependencies": { "next": "14.1.0", "react": "^18", "local": { "path": "../x" } },
  "devDependencies": { "typescript": "5.3.3", "eslint": 8 }
}"#;

#[test]
fn manifest_tables_are_read() {
    let manifest = parse_manifest(SHOP).unwrap();
    let mut dependencies = manifest.dependencies.clone();
    dependencies.sort_by(|a, b| a.name.cmp(&b.name));
    assert_eq!(
        dependencies,
        vec![dep("local", None), dep("next", Some("14.1.0")), dep("react", Some("^18"))]
    );
    let mut dev = manifest.dev_dependencies.clone();
    dev.sort_by(|a, b| a.name.cmp(&b.name));
    assert_eq!(dev, vec![dep("eslint", None), dep("typescript", Some("5.3.3"))]);
}

#[test]
fn manifest_without_tables_has_no_dependencies() {
    assert_eq!(
        parse_manifest("{\"name\": \"bare\"}"),
        Ok(Manifest { dependencies: Vec::new(), dev_dependencies: Vec::new() })
    );
    assert_eq!(
        parse_manifest("{\"dependencies\": [\"next\"], \"devDependencies\": \"vue\"}"),
        Ok(Manifest { dependencies: Vec::new(), dev_dependencies: Vec::new() })
    );
    assert_eq!(
        parse_manifest("[1, 2, 3]"),
        Ok(Manifest { dependencies: Vec::new(), dev_dependencies: Vec::new() })
    );
}

#[test]
fn manifest_that_is_not_json_is_refused() {
    let refused = parse_manifest("{ \"dependencies\": ").unwrap_err();
    assert!(refused.contains("EOF"), "{}", refused);
    assert!(parse_manifest("").is_err());
    assert!(parse_manifest("not json").is_err());
}

#[test]
fn project_is_analyzed_from_its_manifest() {
    let info = analyze_project(SHOP, true, false).unwrap();
    assert_eq!(info.framework, "Next.js");
    assert_eq!(info.runtime, "pnpm");
    let mut names: Vec<&str> = info.packages.iter().map(|p| p.name.as_str()).collect();
    assert_eq!(names.len(), 5);
    assert!(names[..3].contains(&"next") && names[..3].contains(&"react") && names[..3].contains(&"local"));
    names.sort();
    assert_eq!(names, vec!["eslint", "local", "next", "react", "typescript"]);
    let version_of = |name: &str| {
        info.packages.iter().find(|p| p.name == name).map(|p| p.version.clone()).unwrap()
    };
    assert_eq!(version_of("next"), "14.1.0");
    assert_eq!(version_of("local"), "unknown");
    assert_eq!(version_of("eslint"), "unknown");
}

#[test]
fn analysis_of_a_broken_manifest_says_why() {
    let refused = analyze_project("{", false, false).unwrap_err();
    assert!(refused.starts_with("Failed to parse package.json: "), "{}", refused);
    assert!(refused.len() > "Failed to parse package.json: ".len());
}

use oxre::plan::{plan_project, ProjectPlan};
use oxre::{resolve_template, ScaffoldError, Template};

fn paths_of(plan: &ProjectPlan) -> Vec<String> {
    plan.files.iter().map(|f| f.full_path()).collect()
}

fn plan_ok(name: &str, template: &str, typescript: bool) -> ProjectPlan {
    plan_project(name, template, typescript, false).expect("planning should succeed")
}

#[test]
fn default_plan_has_exactly_the_default_file_set() {
    let plan = plan_ok("my-app", "default", false);
    assert_eq!(plan.dirs, vec!["src".to_string(), "public".to_string()]);
    assert_eq!(
        paths_of(&plan),
        vec![
            "package.json",
            "vite.config.js",
            "index.html",
            "src/main.jsx",
            "src/App.jsx",
            "src/App.css",
            "src/index.css",
            ".gitignore",
            "README.md",
        ]
    );
}

#[test]
fn typescript_plan_has_exactly_the_typescript_file_set() {
    let plan = plan_ok("my-app", "typescript", false);
    assert_eq!(plan.dirs, vec!["src".to_string(), "public".to_string()]);
    assert_eq!(
        paths_of(&plan),
        vec![
            "package.json",
            "vite.config.ts",
            "tsconfig.json",
            "tsconfig.node.json",
            "index.html",
            "src/main.tsx",
            "src/App.tsx",
            "src/App.css",
            "src/index.css",
            "src/vite-env.d.ts",
            ".gitignore",
            "README.md",
        ]
    );
}

#[test]
fn every_file_lives_in_the_root_or_a_planned_directory() {
    for (template, typescript) in [("default", false), ("default", true)] {
        let plan = plan_ok("my-app", template, typescript);
        for f in &plan.files {
            assert!(f.dir.is_empty() || plan.dirs.contains(&f.dir));
        }
    }
}

#[test]
fn tool_my_app_scenario() {
    let plan = plan_ok("my-app", "default", false);
    let package = plan
        .files
        .iter()
        .find(|f| f.full_path() == "package.json")
        .expect("package.json is part of the plan");
    assert!(package.content.contains("\"name\": \"my-app\""));
    let paths = paths_of(&plan);
    assert!(paths.contains(&"src/App.jsx".to_string()));
    assert!(!paths.contains(&"src/App.tsx".to_string()));
}

#[test]
fn manifest_name_field_round_trips_through_a_json_parser() {
    for name in ["my-app", "my_app", "app2024", "a-b_c3"] {
        for (template, typescript) in [("default", false), ("default", true)] {
            let plan = plan_ok(name, template, typescript);
            let package = plan
                .files
                .iter()
                .find(|f| f.full_path() == "package.json")
                .expect("package.json is part of the plan");
            let parsed: serde_json::Value =
                serde_json::from_str(&package.content).expect("the manifest is valid JSON");
            assert_eq!(parsed.get("name").and_then(|v| v.as_str()), Some(name));
            assert_eq!(
                parsed.get("version").and_then(|v| v.as_str()),
                Some("0.0.0")
            );
        }
    }
}

#[test]
fn manifest_quotes_a_name_that_needs_escaping() {
    let plan = plan_ok("a\"b", "default", false);
    let package = &plan.files[0];
    let parsed: serde_json::Value =
        serde_json::from_str(&package.content).expect("the manifest is valid JSON");
    assert_eq!(parsed.get("name").and_then(|v| v.as_str()), Some("a\"b"));
    assert!(package.content.contains("\"a\\\"b\""));
}

#[test]
fn index_html_embeds_the_name_as_the_title() {
    for name in ["my-app", "my_app", "app2024"] {
        let plan = plan_ok(name, "default", false);
        let index = plan
            .files
            .iter()
            .find(|f| f.full_path() == "index.html")
            .expect("index.html is part of the plan");
        assert!(index.content.contains(&format!("<title>{}</title>", name)));
    }
}

#[test]
fn readme_embeds_the_name_twice() {
    for name in ["my-app", "my_app", "app2024"] {
        let plan = plan_ok(name, "typescript", false);
        let readme = plan
            .files
            .iter()
            .find(|f| f.full_path() == "README.md")
            .expect("README.md is part of the plan");
        assert!(readme.content.starts_with(&format!("# {}\n", name)));
        assert!(readme
            .content
            .contains(&format!("Build {} for production", name)));
        assert_eq!(readme.content.matches(name).count(), 2);
    }
}

#[test]
fn readme_exact_content() {
    let plan = plan_ok("demo", "default", false);
    let readme = plan
        .files
        .iter()
        .find(|f| f.full_path() == "README.md")
        .expect("README.md is part of the plan");
    assert_eq!(
        readme.content,
        "# demo\n\nA React project scaffolded with oxre.\n\n## Getting started\n\n\
         ```sh\nnpm install\nnpm run dev\n```\n\n\
         Build demo for production with `npm run build`.\n"
    );
}

#[test]
fn typescript_flag_wins_over_explicit_default_template() {
    assert_eq!(
        resolve_template(true, "default"),
        Some(Template::Typescript)
    );
    assert_eq!(resolve_template(true, "foobar"), Some(Template::Typescript));
    let plan = plan_ok("my-app", "default", true);
    let paths = paths_of(&plan);
    assert!(paths.contains(&"src/App.tsx".to_string()));
    assert!(!paths.contains(&"src/App.jsx".to_string()));
}

#[test]
fn template_argument_resolves_without_the_flag() {
    assert_eq!(resolve_template(false, "default"), Some(Template::Default));
    assert_eq!(
        resolve_template(false, "typescript"),
        Some(Template::Typescript)
    );
    assert_eq!(resolve_template(false, "foobar"), None);
    assert_eq!(resolve_template(false, ""), None);
}

#[test]
fn unknown_template_is_rejected_before_any_plan_exists() {
    let r = plan_project("my-app", "foobar", false, false);
    assert_eq!(r.err(), Some(ScaffoldError::UnknownTemplate));
}

#[test]
fn existing_target_always_fails_with_already_exists() {
    for (template, typescript) in [("default", false), ("typescript", false), ("default", true)] {
        let r = plan_project("my-app", template, typescript, true);
        assert_eq!(r.err(), Some(ScaffoldError::AlreadyExists));
    }
    // Even an unknown template loses to the existence check, as the
    // existence of the target is validated first.
    let r = plan_project("my-app", "foobar", false, true);
    assert_eq!(r.err(), Some(ScaffoldError::AlreadyExists));
}

#[test]
fn empty_name_is_a_usage_error() {
    let r = plan_project("", "default", false, false);
    assert_eq!(r.err(), Some(ScaffoldError::UsageError));
}

#[test]
fn error_messages_name_the_rejection() {
    assert_eq!(
        ScaffoldError::UsageError.message(),
        "a non-empty project name is required"
    );
    assert_eq!(
        ScaffoldError::AlreadyExists.message(),
        "target directory already exists"
    );
    assert_eq!(ScaffoldError::UnknownTemplate.message(), "unknown template");
}

#[test]
fn full_paths_join_directory_and_file_name() {
    let plan = plan_ok("my-app", "default", false);
    assert_eq!(plan.files[0].dir, "");
    assert_eq!(plan.files[0].name, "package.json");
    assert_eq!(plan.files[0].full_path(), "package.json");
    assert_eq!(plan.files[3].dir, "src");
    assert_eq!(plan.files[3].name, "main.jsx");
    assert_eq!(plan.files[3].full_path(), "src/main.jsx");
}

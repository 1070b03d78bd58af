//! The scaffold plan: from an invocation's parameters to the exact set of
//! directories and files a new project consists of, or the reason the
//! invocation is rejected. The caller creates the directories first, then
//! writes each file; nothing here touches the filesystem.

use vstd::prelude::*;
use crate::{resolve_template, spec_resolve_template, ScaffoldError, Template};
use crate::manifest::{
    package_json_content, plain_chars, spec_package_json, spec_package_json_plain,
};
use crate::templates::{
    index_html_content, readme_content, spec_index_html, spec_readme, APP_CSS, APP_JSX, APP_TSX,
    GITIGNORE, INDEX_CSS, MAIN_JSX, MAIN_TSX, TSCONFIG_JSON, TSCONFIG_NODE_JSON, VITE_CONFIG_JS,
    VITE_CONFIG_TS, VITE_ENV_DTS,
};

verus! {

/// One file to create: the directory it lives in (empty for the project
/// root), its file name, and its full contents.
pub struct ProjectFile {
    pub dir: String,
    pub name: String,
    pub content: String,
}

impl View for ProjectFile {
    type V = (Seq<char>, Seq<char>, Seq<char>);

    open spec fn view(&self) -> Self::V {
        (self.dir@, self.name@, self.content@)
    }
}

/// Everything a successful invocation creates: the subdirectories of the
/// project root, and the files with their contents.
pub struct ProjectPlan {
    pub dirs: Vec<String>,
    pub files: Vec<ProjectFile>,
}

/// The mathematical shape of a plan: directory names, then
/// (directory, file name, contents) triples.
pub type PlanModel = (Seq<Seq<char>>, Seq<(Seq<char>, Seq<char>, Seq<char>)>);

impl View for ProjectPlan {
    type V = PlanModel;

    open spec fn view(&self) -> PlanModel {
        (
            self.dirs@.map_values(|d: String| d@),
            self.files@.map_values(|f: ProjectFile| f@),
        )
    }
}

impl ProjectFile {
    /// The path of this file relative to the project root.
    pub open spec fn spec_full_path(self) -> Seq<char> {
        if self.dir@.len() == 0 {
            self.name@
        } else {
            self.dir@ + "/"@ + self.name@
        }
    }

    /// Render the relative path of this file, with a slash between a
    /// non-empty directory and the file name.
    pub fn full_path(&self) -> (r: String)
        ensures
            r@ == self.spec_full_path(),
    {
        if self.dir.as_str().is_empty() {
            self.name.clone()
        } else {
            let mut s = self.dir.clone();
            s.append("/");
            s.append(self.name.as_str());
            s
        }
    }
}

/// The subdirectories created under the project root, the same for both
/// variants.
pub open spec fn spec_dirs() -> Seq<Seq<char>> {
    seq!["src"@, "public"@]
}

/// The file set of the default variant, in emission order.
pub open spec fn spec_default_files(name: Seq<char>) -> Seq<(Seq<char>, Seq<char>, Seq<char>)> {
    seq![
        (Seq::<char>::empty(), "package.json"@, spec_package_json(Template::Default, name)),
        (Seq::<char>::empty(), "vite.config.js"@, VITE_CONFIG_JS@),
        (Seq::<char>::empty(), "index.html"@, spec_index_html(name)),
        ("src"@, "main.jsx"@, MAIN_JSX@),
        ("src"@, "App.jsx"@, APP_JSX@),
        ("src"@, "App.css"@, APP_CSS@),
        ("src"@, "index.css"@, INDEX_CSS@),
        (Seq::<char>::empty(), ".gitignore"@, GITIGNORE@),
        (Seq::<char>::empty(), "README.md"@, spec_readme(name)),
    ]
}

/// The file set of the typescript variant, in emission order.
pub open spec fn spec_typescript_files(name: Seq<char>) -> Seq<(Seq<char>, Seq<char>, Seq<char>)> {
    seq![
        (Seq::<char>::empty(), "package.json"@, spec_package_json(Template::Typescript, name)),
        (Seq::<char>::empty(), "vite.config.ts"@, VITE_CONFIG_TS@),
        (Seq::<char>::empty(), "tsconfig.json"@, TSCONFIG_JSON@),
        (Seq::<char>::empty(), "tsconfig.node.json"@, TSCONFIG_NODE_JSON@),
        (Seq::<char>::empty(), "index.html"@, spec_index_html(name)),
        ("src"@, "main.tsx"@, MAIN_TSX@),
        ("src"@, "App.tsx"@, APP_TSX@),
        ("src"@, "App.css"@, APP_CSS@),
        ("src"@, "index.css"@, INDEX_CSS@),
        ("src"@, "vite-env.d.ts"@, VITE_ENV_DTS@),
        (Seq::<char>::empty(), ".gitignore"@, GITIGNORE@),
        (Seq::<char>::empty(), "README.md"@, spec_readme(name)),
    ]
}

/// The file set of a variant, in emission order.
pub open spec fn spec_files(t: Template, name: Seq<char>) -> Seq<(Seq<char>, Seq<char>, Seq<char>)> {
    match t {
        Template::Default => spec_default_files(name),
        Template::Typescript => spec_typescript_files(name),
    }
}

/// Build a file in the project root.
fn root_file(file_name: &'static str, content: String) -> (f: ProjectFile)
    ensures
        f@.0 == Seq::<char>::empty(),
        f@.1 == file_name@,
        f@.2 == content@,
{
    ProjectFile { dir: String::new(), name: String::from_str(file_name), content }
}

/// Build a file in the `src` subdirectory.
fn src_file(file_name: &'static str, content: String) -> (f: ProjectFile)
    ensures
        f@.0 == "src"@,
        f@.1 == file_name@,
        f@.2 == content@,
{
    ProjectFile { dir: String::from_str("src"), name: String::from_str(file_name), content }
}

/// The subdirectories to create, as values.
pub fn project_dirs() -> (v: Vec<String>)
    ensures
        v@.map_values(|d: String| d@) == spec_dirs(),
{
    let mut v: Vec<String> = Vec::new();
    v.push(String::from_str("src"));
    v.push(String::from_str("public"));
    proof {
        assert(v@.map_values(|d: String| d@) =~= spec_dirs());
    }
    v
}

/// The files of the default variant, rendered for the given project name.
/// For a name that needs no JSON escaping, the manifest's exact text is
/// also pinned down.
pub fn default_project_files(name: &str) -> (v: Vec<ProjectFile>)
    ensures
        v@.map_values(|f: ProjectFile| f@) == spec_default_files(name@),
        plain_chars(name@) ==> v@[0]@.2 == spec_package_json_plain(Template::Default, name@),
{
    let mut v: Vec<ProjectFile> = Vec::new();
    v.push(root_file("package.json", package_json_content(Template::Default, name)));
    v.push(root_file("vite.config.js", String::from_str(VITE_CONFIG_JS)));
    v.push(root_file("index.html", index_html_content(name)));
    v.push(src_file("main.jsx", String::from_str(MAIN_JSX)));
    v.push(src_file("App.jsx", String::from_str(APP_JSX)));
    v.push(src_file("App.css", String::from_str(APP_CSS)));
    v.push(src_file("index.css", String::from_str(INDEX_CSS)));
    v.push(root_file(".gitignore", String::from_str(GITIGNORE)));
    v.push(root_file("README.md", readme_content(name)));
    proof {
        assert(v@.map_values(|f: ProjectFile| f@) =~= spec_default_files(name@));
    }
    v
}

/// The files of the typescript variant, rendered for the given project
/// name. For a name that needs no JSON escaping, the manifest's exact text
/// is also pinned down.
pub fn typescript_project_files(name: &str) -> (v: Vec<ProjectFile>)
    ensures
        v@.map_values(|f: ProjectFile| f@) == spec_typescript_files(name@),
        plain_chars(name@) ==> v@[0]@.2 == spec_package_json_plain(Template::Typescript, name@),
{
    let mut v: Vec<ProjectFile> = Vec::new();
    v.push(root_file("package.json", package_json_content(Template::Typescript, name)));
    v.push(root_file("vite.config.ts", String::from_str(VITE_CONFIG_TS)));
    v.push(root_file("tsconfig.json", String::from_str(TSCONFIG_JSON)));
    v.push(root_file("tsconfig.node.json", String::from_str(TSCONFIG_NODE_JSON)));
    v.push(root_file("index.html", index_html_content(name)));
    v.push(src_file("main.tsx", String::from_str(MAIN_TSX)));
    v.push(src_file("App.tsx", String::from_str(APP_TSX)));
    v.push(src_file("App.css", String::from_str(APP_CSS)));
    v.push(src_file("index.css", String::from_str(INDEX_CSS)));
    v.push(src_file("vite-env.d.ts", String::from_str(VITE_ENV_DTS)));
    v.push(root_file(".gitignore", String::from_str(GITIGNORE)));
    v.push(root_file("README.md", readme_content(name)));
    proof {
        assert(v@.map_values(|f: ProjectFile| f@) =~= spec_typescript_files(name@));
    }
    v
}

/// The outcome of an invocation: the plan of a fresh project, or the first
/// reason to reject, checked in this order: an empty name, an existing
/// target, an unrecognized template.
pub open spec fn spec_plan_project(
    name: Seq<char>,
    arg: Seq<char>,
    typescript: bool,
    target_exists: bool,
) -> Result<PlanModel, ScaffoldError> {
    if name.len() == 0 {
        Err(ScaffoldError::UsageError)
    } else if target_exists {
        Err(ScaffoldError::AlreadyExists)
    } else {
        match spec_resolve_template(typescript, arg) {
            Some(t) => Ok((spec_dirs(), spec_files(t, name))),
            None => Err(ScaffoldError::UnknownTemplate),
        }
    }
}

/// Decide an invocation. On success the returned plan is exactly the file
/// set of the selected variant, rendered for the given name; on failure no
/// plan exists, so a caller that writes only what a plan lists performs no
/// write at all.
pub fn plan_project(
    name: &str,
    template_arg: &str,
    typescript: bool,
    target_exists: bool,
) -> (r: Result<ProjectPlan, ScaffoldError>)
    ensures
        (r matches Ok(p) ==> spec_plan_project(name@, template_arg@, typescript, target_exists)
            == Ok::<PlanModel, ScaffoldError>(p@)),
        (r matches Err(e) ==> spec_plan_project(name@, template_arg@, typescript, target_exists)
            == Err::<PlanModel, ScaffoldError>(e)),
        plain_chars(name@) ==> (r matches Ok(p) ==> p@.1[0].2 == spec_package_json_plain(
            spec_resolve_template(typescript, template_arg@)->Some_0,
            name@,
        )),
{
    if name.is_empty() {
        return Err(ScaffoldError::UsageError);
    }
    if target_exists {
        return Err(ScaffoldError::AlreadyExists);
    }
    match resolve_template(typescript, template_arg) {
        None => Err(ScaffoldError::UnknownTemplate),
        Some(t) => {
            let files = match t {
                Template::Default => default_project_files(name),
                Template::Typescript => typescript_project_files(name),
            };
            let plan = ProjectPlan { dirs: project_dirs(), files };
            proof {
                assert(plan@ == (spec_dirs(), spec_files(t, name@)));
                if plain_chars(name@) {
                    assert(spec_files(t, name@).len() > 0);
                    assert(plan.files@.len() > 0);
                    assert(plan@.1[0] == plan.files@[0]@);
                    assert(plan@.1[0].2 == spec_package_json_plain(t, name@));
                }
            }
            Ok(plan)
        },
    }
}

} // verus!

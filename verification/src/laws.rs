//! The library's laws: properties that hold of every invocation, proved
//! once over the specification functions the public contracts use.

use vstd::prelude::*;
use crate::{spec_resolve_template, ScaffoldError, Template};
use crate::manifest::{spec_package_json_plain, PKG_HEAD};
use crate::plan::{
    spec_dirs, spec_files, spec_plan_project, PlanModel,
};
use crate::templates::{
    spec_index_html, spec_readme, INDEX_HTML_HEAD, README_HEAD, README_MID, README_TAIL,
};

verus! {

/// The typescript flag always forces the typescript variant, whatever the
/// template argument says.
pub proof fn lemma_typescript_flag_wins(arg: Seq<char>)
    ensures
        spec_resolve_template(true, arg) == Some(Template::Typescript),
{
}

/// The relative paths (directory, file name) of the default variant.
pub open spec fn spec_default_paths() -> Seq<(Seq<char>, Seq<char>)> {
    seq![
        (Seq::<char>::empty(), "package.json"@),
        (Seq::<char>::empty(), "vite.config.js"@),
        (Seq::<char>::empty(), "index.html"@),
        ("src"@, "main.jsx"@),
        ("src"@, "App.jsx"@),
        ("src"@, "App.css"@),
        ("src"@, "index.css"@),
        (Seq::<char>::empty(), ".gitignore"@),
        (Seq::<char>::empty(), "README.md"@),
    ]
}

/// The relative paths (directory, file name) of the typescript variant.
pub open spec fn spec_typescript_paths() -> Seq<(Seq<char>, Seq<char>)> {
    seq![
        (Seq::<char>::empty(), "package.json"@),
        (Seq::<char>::empty(), "vite.config.ts"@),
        (Seq::<char>::empty(), "tsconfig.json"@),
        (Seq::<char>::empty(), "tsconfig.node.json"@),
        (Seq::<char>::empty(), "index.html"@),
        ("src"@, "main.tsx"@),
        ("src"@, "App.tsx"@),
        ("src"@, "App.css"@),
        ("src"@, "index.css"@),
        ("src"@, "vite-env.d.ts"@),
        (Seq::<char>::empty(), ".gitignore"@),
        (Seq::<char>::empty(), "README.md"@),
    ]
}

/// The relative paths of a variant's file set.
pub open spec fn spec_paths(t: Template) -> Seq<(Seq<char>, Seq<char>)> {
    match t {
        Template::Default => spec_default_paths(),
        Template::Typescript => spec_typescript_paths(),
    }
}

/// For every non-empty project name and either recognized template choice,
/// planning a non-existing target succeeds, and the plan holds exactly the
/// enumerated directories and file paths of that variant — these, in this
/// order, and no others. The paths do not depend on the name.
pub proof fn lemma_success_exact_file_set(name: Seq<char>, arg: Seq<char>, typescript: bool)
    requires
        name.len() > 0,
        spec_resolve_template(typescript, arg) is Some,
    ensures
        spec_plan_project(name, arg, typescript, false) is Ok,
        spec_plan_project(name, arg, typescript, false)->Ok_0.0 == spec_dirs(),
        spec_plan_project(name, arg, typescript, false)->Ok_0.1.map_values(
            |f: (Seq<char>, Seq<char>, Seq<char>)| (f.0, f.1),
        ) == spec_paths(spec_resolve_template(typescript, arg)->Some_0),
{
    let t = spec_resolve_template(typescript, arg)->Some_0;
    assert(spec_files(t, name).map_values(|f: (Seq<char>, Seq<char>, Seq<char>)| (f.0, f.1))
        =~= spec_paths(t));
}

/// Running the tool again without removing the first output always fails
/// with AlreadyExists, whatever the name and template choice: an existing
/// target is rejected before the template is even looked at, and with no
/// plan a caller that writes only what a plan lists writes nothing.
pub proof fn lemma_second_run_fails(name: Seq<char>, arg: Seq<char>, typescript: bool)
    requires
        name.len() > 0,
    ensures
        spec_plan_project(name, arg, typescript, true)
            == Err::<PlanModel, ScaffoldError>(ScaffoldError::AlreadyExists),
{
}

/// Every file of either variant lies in the project root or in one of the
/// plan's directories, so creating the plan's directories first makes every
/// later file write land in an existing directory.
pub open spec fn dirs_cover_files(m: PlanModel) -> bool {
    forall|i: int|
        0 <= i < m.1.len() ==> ((#[trigger] m.1[i]).0.len() == 0 || m.0.contains(m.1[i].0))
}

pub proof fn lemma_plan_dirs_cover(t: Template, name: Seq<char>)
    ensures
        dirs_cover_files((spec_dirs(), spec_files(t, name))),
{
    let m = (spec_dirs(), spec_files(t, name));
    assert(spec_dirs()[0] == "src"@);
    assert forall|i: int|
        0 <= i < m.1.len() implies ((#[trigger] m.1[i]).0.len() == 0 || m.0.contains(
        m.1[i].0,
    )) by {
        if m.1[i].0 == "src"@ {
            assert(m.0[0] == "src"@);
            assert(m.0.contains(m.1[i].0));
        }
    }
}

/// Placeholder substitution in `README.md`: the rendered text carries the
/// project name verbatim at both insertion points, and nothing else of it
/// varies with the name.
pub proof fn lemma_readme_substitution(name: Seq<char>)
    ensures
        spec_readme(name).len() == README_HEAD@.len() + name.len() + README_MID@.len()
            + name.len() + README_TAIL@.len(),
        spec_readme(name).subrange(
            README_HEAD@.len() as int,
            (README_HEAD@.len() + name.len()) as int,
        ) == name,
        spec_readme(name).subrange(
            (README_HEAD@.len() + name.len() + README_MID@.len()) as int,
            (README_HEAD@.len() + name.len() + README_MID@.len() + name.len()) as int,
        ) == name,
{
    assert(spec_readme(name).subrange(
        README_HEAD@.len() as int,
        (README_HEAD@.len() + name.len()) as int,
    ) =~= name);
    assert(spec_readme(name).subrange(
        (README_HEAD@.len() + name.len() + README_MID@.len()) as int,
        (README_HEAD@.len() + name.len() + README_MID@.len() + name.len()) as int,
    ) =~= name);
}

/// Placeholder substitution in `index.html`: the rendered page carries the
/// project name verbatim as its title.
pub proof fn lemma_index_html_substitution(name: Seq<char>)
    ensures
        spec_index_html(name).subrange(
            INDEX_HTML_HEAD@.len() as int,
            (INDEX_HTML_HEAD@.len() + name.len()) as int,
        ) == name,
{
    assert(spec_index_html(name).subrange(
        INDEX_HTML_HEAD@.len() as int,
        (INDEX_HTML_HEAD@.len() + name.len()) as int,
    ) =~= name);
}

/// Name substitution in the manifest, for names that need no JSON escaping:
/// the name field's value is the project name itself between two quote
/// characters.
pub proof fn lemma_manifest_plain_name(t: Template, name: Seq<char>)
    ensures
        spec_package_json_plain(t, name)[PKG_HEAD@.len() as int] == '"',
        spec_package_json_plain(t, name).subrange(
            (PKG_HEAD@.len() + 1) as int,
            (PKG_HEAD@.len() + 1 + name.len()) as int,
        ) == name,
        spec_package_json_plain(t, name)[(PKG_HEAD@.len() + 1 + name.len()) as int] == '"',
{
    assert(spec_package_json_plain(t, name).subrange(
        (PKG_HEAD@.len() + 1) as int,
        (PKG_HEAD@.len() + 1 + name.len()) as int,
    ) =~= name);
}

} // verus!

//! Scaffolding library for new front-end projects.
//!
//! The library computes, from an invocation's parameters, the exact set of
//! directories and files (relative path and full contents) that make up a
//! fresh project, in one of two template variants. All filesystem work is
//! left to the caller; everything here is pure computation with proved
//! contracts.

use vstd::prelude::*;

pub mod laws;
pub mod manifest;
pub mod plan;
pub mod templates;

verus! {

/// The two template variants a project can be generated from.
#[derive(Clone, Copy, PartialEq, Eq, Structural, Debug)]
pub enum Template {
    Default,
    Typescript,
}

/// Why an invocation was rejected. Filesystem failures are not represented
/// here: the library performs no I/O, so the caller reports those itself.
#[derive(Clone, Copy, PartialEq, Eq, Structural, Debug)]
pub enum ScaffoldError {
    /// The project name is empty.
    UsageError,
    /// The target directory already exists.
    AlreadyExists,
    /// The template argument names neither recognized variant.
    UnknownTemplate,
}

/// Which template an invocation selects: the dedicated typescript flag wins
/// over any explicit template name; otherwise the name must be one of the
/// two recognized variants.
pub open spec fn spec_resolve_template(typescript: bool, arg: Seq<char>) -> Option<Template> {
    if typescript {
        Some(Template::Typescript)
    } else if arg == "typescript"@ {
        Some(Template::Typescript)
    } else if arg == "default"@ {
        Some(Template::Default)
    } else {
        None
    }
}

/// Resolve the template choice from the typescript flag and the template
/// argument. The flag takes precedence over the argument; an unrecognized
/// argument yields `None`.
pub fn resolve_template(typescript: bool, arg: &str) -> (r: Option<Template>)
    ensures
        r == spec_resolve_template(typescript, arg@),
{
    if typescript {
        Some(Template::Typescript)
    } else {
        let owned = arg.to_owned();
        if owned == String::from_str("typescript") {
            Some(Template::Typescript)
        } else if owned == String::from_str("default") {
            Some(Template::Default)
        } else {
            None
        }
    }
}

impl ScaffoldError {
    /// What each rejection means, one fixed line per variant.
    pub open spec fn spec_message(self) -> Seq<char> {
        match self {
            ScaffoldError::UsageError => "a non-empty project name is required"@,
            ScaffoldError::AlreadyExists => "target directory already exists"@,
            ScaffoldError::UnknownTemplate => "unknown template"@,
        }
    }

    /// A human-readable description of the rejection.
    pub fn message(&self) -> (m: String)
        ensures
            m@ == self.spec_message(),
    {
        match self {
            ScaffoldError::UsageError => String::from_str("a non-empty project name is required"),
            ScaffoldError::AlreadyExists => String::from_str("target directory already exists"),
            ScaffoldError::UnknownTemplate => String::from_str("unknown template"),
        }
    }
}

} // verus!

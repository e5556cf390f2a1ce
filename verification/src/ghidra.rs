//! Where a Ghidra installation and its projects live on disk, and which
//! files mark a project as existing or as holding program data.
use vstd::prelude::*;
use vstd::string::*;
use crate::error::GhidraError;
use crate::json::push_str;
use crate::run::{artifact_paths, join_path, joined_path, project_artifacts};

verus! {

broadcast use vstd::string::group_string_axioms;

/// `Path::file_name`, read back as text.
pub uninterp spec fn file_name_of(p: Seq<char>) -> Option<Seq<char>>;

/// `Path::parent`, read back as text.
pub uninterp spec fn parent_of(p: Seq<char>) -> Option<Seq<char>>;

/// Calls `Path::file_name` (its text, lossily); the result is named
/// [`file_name_of`].
#[verifier::external_body]
pub(crate) fn path_file_name(p: &str) -> (r: Option<String>)
    ensures
        crate::query::planner::opt_view(r) == file_name_of(p@),
{
    std::path::Path::new(p).file_name().map(|n| n.to_string_lossy().into_owned())
}

/// Calls `Path::parent` (its text, lossily); the result is named
/// [`parent_of`].
#[verifier::external_body]
pub(crate) fn path_parent(p: &str) -> (r: Option<String>)
    ensures
        crate::query::planner::opt_view(r) == parent_of(p@),
{
    std::path::Path::new(p).parent().map(|d| d.to_string_lossy().into_owned())
}

/// A Ghidra installation and the directory its projects are kept in.
#[derive(Debug)]
pub struct GhidraClient {
    pub install_dir: String,
    pub project_dir: String,
}

impl GhidraClient {
    /// The client for an installation and a projects directory.
    pub fn from_dirs(install_dir: String, project_dir: String) -> (r: GhidraClient)
        ensures
            r.install_dir == install_dir,
            r.project_dir == project_dir,
    {
        GhidraClient { install_dir, project_dir }
    }

    /// The installation is usable when its headless launcher was found
    /// (`headless` is the outcome of looking for it); otherwise
    /// `GhidraNotFound`.
    pub fn verify_installation(&self, headless: Result<String, String>) -> (r: Result<(), GhidraError>)
        ensures
            r is Ok <==> headless is Ok,
            r matches Err(e) ==> e is GhidraNotFound,
    {
        match headless {
            Ok(_) => Ok(()),
            Err(_) => Err(GhidraError::GhidraNotFound),
        }
    }

    /// The path of the project `project_name` in the projects directory.
    pub fn get_project_path(&self, project_name: &str) -> (r: String)
        ensures
            r@ == joined_path(self.project_dir@, project_name@),
    {
        join_path(self.project_dir.as_str(), project_name)
    }

    /// The projects directory.
    pub fn get_project_dir(&self) -> (r: &str)
        ensures
            r@ == self.project_dir@,
    {
        self.project_dir.as_str()
    }

    /// The files whose existence marks the project `project_name` (see
    /// [`project_artifact_paths`]).
    pub fn project_artifacts(&self, project_name: &str) -> (r: Option<(String, String)>)
        ensures
            match (
                file_name_of(joined_path(self.project_dir@, project_name@)),
                parent_of(joined_path(self.project_dir@, project_name@)),
            ) {
                (Some(n), Some(par)) => r matches Some(t) && (t.0@, t.1@) == artifact_paths(par, n),
                _ => r is None,
            },
    {
        let p = self.get_project_path(project_name);
        project_artifact_paths(p.as_str())
    }

    /// Whether the project `project_name` exists, given the paths found on
    /// disk (see [`ghidra_project_exists`]).
    pub fn project_exists(&self, project_name: &str, existing: &[String]) -> (r: bool)
        ensures
            r == project_present(joined_path(self.project_dir@, project_name@), existing@),
    {
        let p = self.get_project_path(project_name);
        ghidra_project_exists(p.as_str(), existing)
    }
}

/// Whether `p` is one of the paths in `existing`.
pub open spec fn listed(existing: Seq<String>, p: Seq<char>) -> bool {
    exists|i: int| 0 <= i < existing.len() && (#[trigger] existing[i])@ == p
}

/// A project is present at `project_path` when its `.gpr` descriptor or its
/// `.rep` directory is among the existing paths.
pub open spec fn project_present(project_path: Seq<char>, existing: Seq<String>) -> bool {
    match (file_name_of(project_path), parent_of(project_path)) {
        (Some(n), Some(par)) => listed(existing, artifact_paths(par, n).0) || listed(
            existing,
            artifact_paths(par, n).1,
        ),
        _ => false,
    }
}

fn is_listed(existing: &[String], p: &str) -> (r: bool)
    ensures
        r == listed(existing@, p@),
{
    let mut i: usize = 0;
    while i < existing.len()
        invariant
            0 <= i <= existing.len(),
            forall|j: int| 0 <= j < i ==> (#[trigger] existing@[j])@ != p@,
        decreases existing.len() - i,
    {
        if crate::json::str_eq(existing[i].as_str(), p) {
            return true;
        }
        i = i + 1;
    }
    false
}

/// Whether a Ghidra project exists at `project_path`, given the paths found
/// to exist on disk: the headless analyzer leaves a `<name>.gpr` file and a
/// `<name>.rep` directory beside each other, and either one marks the
/// project (a bare `<name>` directory does not).
pub fn ghidra_project_exists(project_path: &str, existing: &[String]) -> (r: bool)
    ensures
        r == project_present(project_path@, existing@),
{
    match project_artifact_paths(project_path) {
        Some((g, d)) => is_listed(existing, g.as_str()) || is_listed(existing, d.as_str()),
        None => false,
    }
}

/// Whether a Ghidra project exists at `project_path` (see
/// [`ghidra_project_exists`]).
pub fn project_exists(project_path: &str, existing: &[String]) -> (r: bool)
    ensures
        r == project_present(project_path@, existing@),
{
    ghidra_project_exists(project_path, existing)
}

/// The two files whose existence marks a Ghidra project at `project_path`:
/// `<parent>/<name>.gpr` and `<parent>/<name>.rep` (a bare `<name>`
/// directory is no proof); `None` when the path has no name or parent.
pub fn project_artifact_paths(project_path: &str) -> (r: Option<(String, String)>)
    ensures
        match (file_name_of(project_path@), parent_of(project_path@)) {
            (Some(n), Some(par)) => r matches Some(t) && (t.0@, t.1@) == artifact_paths(par, n),
            _ => r is None,
        },
{
    match (path_file_name(project_path), path_parent(project_path)) {
        (Some(n), Some(par)) => Some(project_artifacts(par.as_str(), n.as_str())),
        _ => None,
    }
}

/// Where a project keeps its descriptor and its program data: the `.gpr`
/// file and the `idata` directory under `.rep`.
pub open spec fn data_paths(parent: Seq<char>, name: Seq<char>) -> (Seq<char>, Seq<char>) {
    (
        joined_path(parent, name + ".gpr"@),
        joined_path(joined_path(parent, name + ".rep"@), "idata"@),
    )
}

/// The descriptor file and the `idata` directory of the project at
/// `project_path` (program data lives in subdirectories of the latter);
/// `None` when the path has no name or parent.
pub fn program_data_paths(project_path: &str) -> (r: Option<(String, String)>)
    ensures
        match (file_name_of(project_path@), parent_of(project_path@)) {
            (Some(n), Some(par)) => r matches Some(t) && (t.0@, t.1@) == data_paths(par, n),
            _ => r is None,
        },
{
    match (path_file_name(project_path), path_parent(project_path)) {
        (Some(n), Some(par)) => {
            let mut g = n.clone();
            push_str(&mut g, ".gpr");
            let mut d = n.clone();
            push_str(&mut d, ".rep");
            let rep = join_path(par.as_str(), d.as_str());
            Some((join_path(par.as_str(), g.as_str()), join_path(rep.as_str(), "idata")))
        },
        _ => None,
    }
}

} // verus!

//! Where files lie.
//!
//! A path starts from a directory that only the running program knows. Such a directory
//! may be written as a relative path, in a variable of the environment for one. A path
//! that has to be absolute is then taken from the working directory.
use vstd::prelude::*;
use vstd::string::*;

verus! {

/// A directory that only the running program knows.
#[derive(Clone, Copy, Debug, PartialEq, Eq, Structural)]
pub enum PathBase {
    /// The user's home directory.
    Home,
    /// The directory that the environment variable `OLLAMA_MODELS` names.
    OllamaModels,
    /// The root of this program's own cache.
    Cache,
}

/// How a directory is written.
#[derive(Clone, Copy, Debug, PartialEq, Eq, Structural)]
pub enum Written {
    /// As an absolute path.
    Absolute,
    /// As a path from the working directory.
    Relative,
}

/// How the program found the directories that paths start from.
#[derive(Clone, Copy, Debug, PartialEq, Eq, Structural)]
pub struct Bases {
    /// How the home directory is written.
    pub home: Written,
    /// How `OLLAMA_MODELS` is written, where it is set.
    pub ollama_models: Option<Written>,
    /// How the root of the program's own cache is written.
    pub cache: Written,
}

impl Bases {
    /// `base` is written as an absolute path.
    pub open spec fn is_absolute(self, base: PathBase) -> bool {
        match base {
            PathBase::Home => self.home == Written::Absolute,
            PathBase::OllamaModels => self.ollama_models == Some(Written::Absolute),
            PathBase::Cache => self.cache == Written::Absolute,
        }
    }

    /// Whether `base` is written as an absolute path.
    pub fn is_written_absolute(self, base: PathBase) -> (yes: bool)
        ensures
            yes == self.is_absolute(base),
    {
        match base {
            PathBase::Home => self.home == Written::Absolute,
            PathBase::OllamaModels => match self.ollama_models {
                Some(written) => written == Written::Absolute,
                None => false,
            },
            PathBase::Cache => self.cache == Written::Absolute,
        }
    }
}

/// A path: a base, and what is joined to it, part by part.
#[derive(Debug)]
pub struct LocalPath {
    /// Where the path starts.
    pub base: PathBase,
    /// The base is joined to the working directory first.
    pub from_here: bool,
    /// What is joined to the base, in turn.
    pub parts: Vec<String>,
}

/// The text of a path.
pub struct PathView {
    /// Where the path starts.
    pub base: PathBase,
    /// The base is joined to the working directory first.
    pub from_here: bool,
    /// What is joined to the base, in turn.
    pub parts: Seq<Seq<char>>,
}

/// The text of each string.
pub open spec fn texts(strings: Seq<String>) -> Seq<Seq<char>> {
    Seq::new(strings.len(), |i: int| strings[i]@)
}

impl View for LocalPath {
    type V = PathView;

    open spec fn view(&self) -> PathView {
        PathView { base: self.base, from_here: self.from_here, parts: texts(self.parts@) }
    }
}

impl PathView {
    /// The path with `part` joined to it.
    pub open spec fn join(self, part: Seq<char>) -> PathView {
        PathView { parts: self.parts.push(part), ..self }
    }

    /// The path, taken from the working directory unless it is absolute.
    pub open spec fn anchored(self, bases: Bases) -> PathView {
        PathView { from_here: self.from_here || !bases.is_absolute(self.base), ..self }
    }

    /// The path is absolute: it starts from the working directory, or from a base that
    /// is written as an absolute path.
    pub open spec fn is_absolute(self, bases: Bases) -> bool {
        self.from_here || bases.is_absolute(self.base)
    }
}

/// The base itself, as it is written.
pub open spec fn path_at(base: PathBase) -> PathView {
    PathView { base, from_here: false, parts: Seq::empty() }
}

impl LocalPath {
    /// The base itself, as it is written.
    pub fn at(base: PathBase) -> (path: LocalPath)
        ensures
            path@ == path_at(base),
    {
        let path = LocalPath { base, from_here: false, parts: Vec::new() };
        assert(texts(path.parts@) =~= Seq::empty());
        path
    }

    /// Makes the path absolute: it is taken from the working directory, unless its base
    /// is written as an absolute path.
    pub fn anchored(self, bases: Bases) -> (path: LocalPath)
        ensures
            path@ == self@.anchored(bases),
            path@.is_absolute(bases),
    {
        let from_here: bool = self.from_here || !bases.is_written_absolute(self.base);
        LocalPath { base: self.base, from_here, parts: self.parts }
    }

    /// Joins `part` to the path.
    pub fn join(self, part: &str) -> (path: LocalPath)
        ensures
            path@ == self@.join(part@),
    {
        let ghost before = self.parts@;
        let base: PathBase = self.base;
        let from_here: bool = self.from_here;
        let mut parts: Vec<String> = self.parts;
        parts.push(part.to_owned());
        assert(texts(parts@) =~= texts(before).push(part@));
        LocalPath { base, from_here, parts }
    }
}

/// An anchored path is absolute, however its base is written. An absolute path stays as it
/// is when it is anchored, and stays absolute when something is joined to it.
pub proof fn law_anchored_is_absolute(path: PathView, bases: Bases, part: Seq<char>)
    ensures
        path.anchored(bases).is_absolute(bases),
        path.is_absolute(bases) ==> path.anchored(bases) == path,
        path.is_absolute(bases) ==> path.join(part).is_absolute(bases),
{
}

/// The view of a path holds all of it: its base, its start, and the text of every part.
pub proof fn law_path_view(path: LocalPath)
    ensures
        path@.base == path.base,
        path@.from_here == path.from_here,
        path@.parts.len() == path.parts@.len(),
        forall|i: int| 0 <= i < path.parts@.len() ==> path@.parts[i] == #[trigger] path.parts@[i]@,
{
}

/// A path begins with nothing joined to its base. What is joined comes last, and all
/// else stays.
pub proof fn law_join_appends(base: PathBase, path: PathView, part: Seq<char>)
    ensures
        path_at(base).base == base,
        path_at(base).parts.len() == 0,
        !path_at(base).from_here,
        path.join(part).base == path.base,
        path.join(part).from_here == path.from_here,
        path.join(part).parts.len() == path.parts.len() + 1,
        path.join(part).parts.last() == part,
        path.join(part).parts.drop_last() == path.parts,
{
    assert(path.join(part).parts.drop_last() =~= path.parts);
}

/// Anchoring keeps the base and the parts. It takes a path from the working directory
/// exactly where its base is not written as an absolute path, or where it was taken from
/// there before.
pub proof fn law_anchored_start(path: PathView, bases: Bases)
    ensures
        path.anchored(bases).base == path.base,
        path.anchored(bases).parts == path.parts,
        path.from_here ==> path.anchored(bases).from_here,
        !path.from_here && path.base == PathBase::Home ==> path.anchored(bases).from_here == (
        bases.home == Written::Relative),
        !path.from_here && path.base == PathBase::Cache ==> path.anchored(bases).from_here == (
        bases.cache == Written::Relative),
        !path.from_here && path.base == PathBase::OllamaModels ==> path.anchored(bases).from_here
            == (bases.ollama_models != Some(Written::Absolute)),
{
}

} // verus!

use vstd::prelude::*;

verus! {

/// What a path denotes on the file system when it is probed.
#[derive(Clone, Copy, Debug, PartialEq, Eq, Structural)]
pub enum PathKind {
    /// Nothing exists at the path.
    Missing,
    /// Something that is not a directory exists at the path.
    File,
    /// A directory exists at the path.
    Directory,
}

impl PathKind {
    /// Classifies a path from the two probes `exists` and `is_dir`.
    /// A path that is a directory also exists, so `is_dir` wins.
    pub fn from_probes(exists: bool, is_dir: bool) -> (r: PathKind)
        ensures
            r == (if is_dir {
                PathKind::Directory
            } else if exists {
                PathKind::File
            } else {
                PathKind::Missing
            }),
    {
        if is_dir {
            PathKind::Directory
        } else if exists {
            PathKind::File
        } else {
            PathKind::Missing
        }
    }

    /// Whether something exists at the path.
    pub fn is_present(&self) -> (r: bool)
        ensures
            r == !(*self is Missing),
    {
        !matches!(self, PathKind::Missing)
    }

    /// Whether the path is a directory.
    pub fn is_dir(&self) -> (r: bool)
        ensures
            r == (*self is Directory),
    {
        matches!(self, PathKind::Directory)
    }
}

/// One input path together with what it denoted when it was probed.
#[derive(Debug)]
pub struct PathInfo {
    pub path: String,
    pub kind: PathKind,
}

impl View for PathInfo {
    type V = (Seq<char>, PathKind);

    open spec fn view(&self) -> (Seq<char>, PathKind) {
        (self.path@, self.kind)
    }
}

impl PathInfo {
    pub fn new(path: String, kind: PathKind) -> (r: PathInfo)
        ensures
            r.path@ == path@,
            r.kind == kind,
    {
        PathInfo { path, kind }
    }
}

/// The view of an optional input: its path and kind, when present.
pub open spec fn opt_view(p: Option<PathInfo>) -> Option<(Seq<char>, PathKind)> {
    match p {
        Some(i) => Some(i@),
        None => None,
    }
}

/// The three optional inputs of one invocation: the positional argument and
/// the values of the source and destination variables.
#[derive(Debug)]
pub struct Inputs {
    pub argument: Option<PathInfo>,
    pub from_var: Option<PathInfo>,
    pub to_var: Option<PathInfo>,
}

/// The view of the inputs: for each one, its path and kind when present.
pub ghost struct InputsView {
    pub argument: Option<(Seq<char>, PathKind)>,
    pub from_var: Option<(Seq<char>, PathKind)>,
    pub to_var: Option<(Seq<char>, PathKind)>,
}

impl View for Inputs {
    type V = InputsView;

    open spec fn view(&self) -> InputsView {
        InputsView {
            argument: opt_view(self.argument),
            from_var: opt_view(self.from_var),
            to_var: opt_view(self.to_var),
        }
    }
}

impl Inputs {
    pub fn new(
        argument: Option<PathInfo>,
        from_var: Option<PathInfo>,
        to_var: Option<PathInfo>,
    ) -> (r: Inputs)
        ensures
            r@ == (InputsView {
                argument: opt_view(argument),
                from_var: opt_view(from_var),
                to_var: opt_view(to_var),
            }),
    {
        Inputs { argument, from_var, to_var }
    }
}

} // verus!

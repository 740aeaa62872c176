use vstd::prelude::*;

use crate::paths::{Inputs, InputsView, PathInfo, PathKind};

verus! {

/// The one copy that an invocation performs: bytes of `source` are written to
/// `destination`.
#[derive(Debug, PartialEq, Eq)]
pub struct CopyPlan {
    pub source: String,
    pub destination: String,
}

impl View for CopyPlan {
    type V = (Seq<char>, Seq<char>);

    open spec fn view(&self) -> (Seq<char>, Seq<char>) {
        (self.source@, self.destination@)
    }
}

/// Why an invocation does not (or did not) copy.
#[derive(Debug, PartialEq, Eq)]
pub enum CopyError {
    /// The argument and both variables are present: the direction is unknown.
    Ambiguous,
    /// The source variable names a path where nothing exists.
    SourceMissing(String),
    /// The source variable names a directory.
    SourceIsDirectory(String),
    /// The destination variable names a directory.
    DestinationIsDirectory(String),
    /// Both paths come from variables and the destination already exists.
    DestinationExists(String),
    /// The argument names a path where nothing exists.
    ArgumentMissing(String),
    /// The argument names a directory.
    ArgumentIsDirectory(String),
    /// The copy itself failed: source, destination and the reported detail.
    CopyFailed(String, String, String),
    /// No argument and not both variables.
    MissingFile,
    /// An argument but neither variable.
    MissingVariable,
    /// A state that the rules above do not cover.
    Unknown,
}

/// The mathematical value of a [`CopyError`]: its variant and paths.
pub ghost enum Failure {
    Ambiguous,
    SourceMissing(Seq<char>),
    SourceIsDirectory(Seq<char>),
    DestinationIsDirectory(Seq<char>),
    DestinationExists(Seq<char>),
    ArgumentMissing(Seq<char>),
    ArgumentIsDirectory(Seq<char>),
    CopyFailed(Seq<char>, Seq<char>, Seq<char>),
    MissingFile,
    MissingVariable,
    Unknown,
}

impl View for CopyError {
    type V = Failure;

    open spec fn view(&self) -> Failure {
        match self {
            CopyError::Ambiguous => Failure::Ambiguous,
            CopyError::SourceMissing(p) => Failure::SourceMissing(p@),
            CopyError::SourceIsDirectory(p) => Failure::SourceIsDirectory(p@),
            CopyError::DestinationIsDirectory(p) => Failure::DestinationIsDirectory(p@),
            CopyError::DestinationExists(p) => Failure::DestinationExists(p@),
            CopyError::ArgumentMissing(p) => Failure::ArgumentMissing(p@),
            CopyError::ArgumentIsDirectory(p) => Failure::ArgumentIsDirectory(p@),
            CopyError::CopyFailed(s, d, e) => Failure::CopyFailed(s@, d@, e@),
            CopyError::MissingFile => Failure::MissingFile,
            CopyError::MissingVariable => Failure::MissingVariable,
            CopyError::Unknown => Failure::Unknown,
        }
    }
}

/// What the inputs decide: one copy from a source to a destination, or a
/// refusal.
pub ghost enum Resolution {
    Copy(Seq<char>, Seq<char>),
    Fail(Failure),
}

/// Whether an optional input is present and was probed as `k`.
pub open spec fn has_kind(o: Option<(Seq<char>, PathKind)>, k: PathKind) -> bool {
    match o {
        Some((_, kind)) => kind == k,
        None => false,
    }
}

/// The path of a present input.
pub open spec fn path_of(o: Option<(Seq<char>, PathKind)>) -> Seq<char> {
    match o {
        Some((p, _)) => p,
        None => Seq::empty(),
    }
}

/// The decision table, in its order: the first rule that applies decides.
///
/// 1. argument and both variables present: ambiguous;
/// 2. the source variable must name an existing non-directory;
/// 3. the destination variable must not name a directory;
/// 4. both variables present: copy from one to the other, unless the
///    destination already exists;
/// 5. the argument must name an existing non-directory;
/// 6. source variable and argument: copy into the argument, overwriting it;
/// 7. destination variable and argument: copy from the argument, overwriting
///    the destination;
/// 8. no argument: nothing to read or replace;
/// 9. an argument alone: a variable is missing.
pub open spec fn resolution(i: InputsView) -> Resolution {
    if i.argument is Some && i.from_var is Some && i.to_var is Some {
        Resolution::Fail(Failure::Ambiguous)
    } else if has_kind(i.from_var, PathKind::Missing) {
        Resolution::Fail(Failure::SourceMissing(path_of(i.from_var)))
    } else if has_kind(i.from_var, PathKind::Directory) {
        Resolution::Fail(Failure::SourceIsDirectory(path_of(i.from_var)))
    } else if has_kind(i.to_var, PathKind::Directory) {
        Resolution::Fail(Failure::DestinationIsDirectory(path_of(i.to_var)))
    } else if i.from_var is Some && i.to_var is Some {
        if has_kind(i.to_var, PathKind::File) {
            Resolution::Fail(Failure::DestinationExists(path_of(i.to_var)))
        } else {
            Resolution::Copy(path_of(i.from_var), path_of(i.to_var))
        }
    } else if has_kind(i.argument, PathKind::Missing) {
        Resolution::Fail(Failure::ArgumentMissing(path_of(i.argument)))
    } else if has_kind(i.argument, PathKind::Directory) {
        Resolution::Fail(Failure::ArgumentIsDirectory(path_of(i.argument)))
    } else if i.from_var is Some && i.argument is Some {
        Resolution::Copy(path_of(i.from_var), path_of(i.argument))
    } else if i.to_var is Some && i.argument is Some {
        Resolution::Copy(path_of(i.argument), path_of(i.to_var))
    } else if i.argument is None {
        Resolution::Fail(Failure::MissingFile)
    } else {
        Resolution::Fail(Failure::MissingVariable)
    }
}

/// The mathematical value of what [`resolve`] returns.
pub open spec fn plan_view(r: Result<CopyPlan, CopyError>) -> Resolution {
    match r {
        Ok(p) => Resolution::Copy(p.source@, p.destination@),
        Err(e) => Resolution::Fail(e@),
    }
}

/// Decides, from the probed inputs, the single copy to perform or why none is.
/// The result follows [`resolution`] exactly, so the catch-all
/// [`CopyError::Unknown`] and the second directory check on the source, kept
/// as safety nets, are proved never to be reached.
pub fn resolve(inputs: Inputs) -> (r: Result<CopyPlan, CopyError>)
    ensures
        plan_view(r) == resolution(inputs@),
{
    let Inputs { argument, from_var, to_var } = inputs;
    if argument.is_some() && from_var.is_some() && to_var.is_some() {
        return Err(CopyError::Ambiguous);
    }
    let from_path: Option<PathInfo> = match from_var {
        Some(from) => {
            if !from.kind.is_present() {
                return Err(CopyError::SourceMissing(from.path));
            }
            if from.kind.is_dir() {
                return Err(CopyError::SourceIsDirectory(from.path));
            }
            Some(from)
        },
        None => None,
    };
    let to_path: Option<PathInfo> = match to_var {
        Some(to) => {
            if to.kind.is_dir() {
                return Err(CopyError::DestinationIsDirectory(to.path));
            }
            Some(to)
        },
        None => None,
    };
    if from_path.is_some() && to_path.is_some() {
        let from = from_path.unwrap();
        let to = to_path.unwrap();
        if from.kind.is_dir() {
            return Err(CopyError::SourceIsDirectory(from.path));
        }
        if to.kind.is_present() {
            return Err(CopyError::DestinationExists(to.path));
        }
        return Ok(CopyPlan { source: from.path, destination: to.path });
    }
    let argument_path: Option<PathInfo> = match argument {
        Some(file) => {
            if !file.kind.is_present() {
                return Err(CopyError::ArgumentMissing(file.path));
            }
            if file.kind.is_dir() {
                return Err(CopyError::ArgumentIsDirectory(file.path));
            }
            Some(file)
        },
        None => None,
    };
    if from_path.is_some() && argument_path.is_some() {
        let from = from_path.unwrap();
        let target = argument_path.unwrap();
        return Ok(CopyPlan { source: from.path, destination: target.path });
    }
    if to_path.is_some() && argument_path.is_some() {
        let to = to_path.unwrap();
        let origin = argument_path.unwrap();
        return Ok(CopyPlan { source: origin.path, destination: to.path });
    }
    if argument_path.is_none() {
        return Err(CopyError::MissingFile);
    }
    if from_path.is_none() || to_path.is_none() {
        return Err(CopyError::MissingVariable);
    }
    Err(CopyError::Unknown)
}

} // verus!

verus! {

/// Turns what the file system reported for a planned copy into the result of
/// the invocation: success, or a copy failure that names both paths and the
/// reported detail.
pub fn finish_copy(plan: CopyPlan, copied: Result<(), String>) -> (r: Result<(), CopyError>)
    ensures
        copied is Ok ==> r is Ok,
        copied is Err ==> r is Err && r->Err_0@ == Failure::CopyFailed(
            plan.source@,
            plan.destination@,
            copied->Err_0@,
        ),
{
    match copied {
        Ok(()) => Ok(()),
        Err(detail) => Err(CopyError::CopyFailed(plan.source, plan.destination, detail)),
    }
}

} // verus!

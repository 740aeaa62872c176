use vstd::prelude::*;

use crate::paths::{InputsView, PathKind};
use crate::resolve::{has_kind, path_of, resolution, Failure, Resolution};

verus! {

/// With the argument and both variables present the direction of the copy is
/// unknown: the inputs are refused as ambiguous and nothing is copied.
pub proof fn lemma_all_three_ambiguous(i: InputsView)
    requires
        i.argument is Some,
        i.from_var is Some,
        i.to_var is Some,
    ensures
        resolution(i) == Resolution::Fail(Failure::Ambiguous),
{
}

/// A source variable that names a missing path is refused as such, whatever
/// else is given (unless the inputs are already ambiguous), and nothing is
/// copied.
pub proof fn lemma_source_missing(i: InputsView)
    requires
        has_kind(i.from_var, PathKind::Missing),
        !(i.argument is Some && i.to_var is Some),
    ensures
        resolution(i) == Resolution::Fail(Failure::SourceMissing(path_of(i.from_var))),
{
}

/// The inputs where both paths come from the variables, the source is a
/// regular file and the destination does not exist yet.
pub open spec fn variables_only(from: Seq<char>, to: Seq<char>, to_kind: PathKind) -> InputsView {
    InputsView {
        argument: None,
        from_var: Some((from, PathKind::File)),
        to_var: Some((to, to_kind)),
    }
}

/// Both paths from the variables, an existing source and a destination that
/// does not exist: the source is copied to the destination.
pub proof fn lemma_variables_copy(from: Seq<char>, to: Seq<char>)
    ensures
        resolution(variables_only(from, to, PathKind::Missing)) == Resolution::Copy(from, to),
{
}

/// Both paths from the variables and a destination that already exists as a
/// regular file: the copy is refused and the destination is left alone.
pub proof fn lemma_variables_never_overwrite(from: Seq<char>, to: Seq<char>)
    ensures
        resolution(variables_only(from, to, PathKind::File)) == Resolution::Fail(
            Failure::DestinationExists(to),
        ),
{
}

/// Source variable and an existing argument file: the argument file is the
/// destination and is overwritten, whatever it holds.
pub proof fn lemma_argument_overwritten(from: Seq<char>, argument: Seq<char>)
    ensures
        resolution(
            InputsView {
                argument: Some((argument, PathKind::File)),
                from_var: Some((from, PathKind::File)),
                to_var: None,
            },
        ) == Resolution::Copy(from, argument),
{
}

/// Destination variable and an existing argument file: the argument file is
/// copied to the destination, whether or not the destination exists.
pub proof fn lemma_argument_copied_out(argument: Seq<char>, to: Seq<char>, to_kind: PathKind)
    requires
        to_kind != PathKind::Directory,
    ensures
        resolution(
            InputsView {
                argument: Some((argument, PathKind::File)),
                from_var: None,
                to_var: Some((to, to_kind)),
            },
        ) == Resolution::Copy(argument, to),
{
}

/// Without any input there is no file to read or replace.
pub proof fn lemma_no_inputs()
    ensures
        resolution(InputsView { argument: None, from_var: None, to_var: None })
            == Resolution::Fail(Failure::MissingFile),
{
}

/// Running the variables-only copy twice: the first run copies, and since a
/// successful copy leaves the destination as a regular file, the second run
/// with the same variables is refused because the destination exists.
pub proof fn lemma_second_run_refused(from: Seq<char>, to: Seq<char>)
    ensures
        resolution(variables_only(from, to, PathKind::Missing)) == Resolution::Copy(from, to),
        resolution(variables_only(from, to, PathKind::File)) == Resolution::Fail(
            Failure::DestinationExists(to),
        ),
{
}

/// Every copy that the inputs decide reads an existing non-directory and
/// writes to a path that is not a directory. It is one of three shapes: both
/// variables, with a destination that does not exist yet; source variable into
/// the argument file; argument file into the destination variable.
pub proof fn lemma_copies_are_valid(i: InputsView, source: Seq<char>, destination: Seq<char>)
    requires
        resolution(i) == Resolution::Copy(source, destination),
    ensures
        (i.argument is None && i.from_var == Some((source, PathKind::File)) && i.to_var == Some(
            (destination, PathKind::Missing),
        )) || (i.to_var is None && i.from_var == Some((source, PathKind::File))
            && i.argument == Some((destination, PathKind::File))) || (i.from_var is None
            && i.argument == Some((source, PathKind::File)) && i.to_var is Some && path_of(
            i.to_var,
        ) == destination && !has_kind(i.to_var, PathKind::Directory)),
{
}

} // verus!

use copie::paths::{Inputs, PathInfo, PathKind};
use copie::resolve::{finish_copy, resolve, CopyError, CopyPlan};

fn info(path: &str, kind: PathKind) -> Option<PathInfo> {
    Some(PathInfo::new(path.to_string(), kind))
}

fn plan(source: &str, destination: &str) -> Result<CopyPlan, CopyError> {
    Ok(CopyPlan { source: source.to_string(), destination: destination.to_string() })
}

#[test]
fn all_three_inputs_are_ambiguous() {
    let r = resolve(Inputs::new(
        info("arg.txt", PathKind::File),
        info("from.txt", PathKind::File),
        info("to.txt", PathKind::Missing),
    ));
    assert_eq!(r, Err(CopyError::Ambiguous));
}

#[test]
fn ambiguity_wins_over_a_missing_source() {
    let r = resolve(Inputs::new(
        info("arg.txt", PathKind::Missing),
        info("from.txt", PathKind::Missing),
        info("to.txt", PathKind::Directory),
    ));
    assert_eq!(r, Err(CopyError::Ambiguous));
}

#[test]
fn missing_source_variable_is_refused() {
    let r = resolve(Inputs::new(None, info("nope.txt", PathKind::Missing), None));
    assert_eq!(r, Err(CopyError::SourceMissing("nope.txt".to_string())));
    let r = resolve(Inputs::new(None, info("nope.txt", PathKind::Missing), info("to.txt", PathKind::Missing)));
    assert_eq!(r, Err(CopyError::SourceMissing("nope.txt".to_string())));
    let r = resolve(Inputs::new(info("arg.txt", PathKind::File), info("nope.txt", PathKind::Missing), None));
    assert_eq!(r, Err(CopyError::SourceMissing("nope.txt".to_string())));
}

#[test]
fn source_directory_is_refused() {
    let r = resolve(Inputs::new(None, info("dir", PathKind::Directory), info("to.txt", PathKind::Missing)));
    assert_eq!(r, Err(CopyError::SourceIsDirectory("dir".to_string())));
}

#[test]
fn destination_directory_is_refused() {
    let r = resolve(Inputs::new(None, info("from.txt", PathKind::File), info("dir", PathKind::Directory)));
    assert_eq!(r, Err(CopyError::DestinationIsDirectory("dir".to_string())));
    let r = resolve(Inputs::new(info("arg.txt", PathKind::Missing), None, info("dir", PathKind::Directory)));
    assert_eq!(r, Err(CopyError::DestinationIsDirectory("dir".to_string())));
}

#[test]
fn variables_copy_to_a_new_destination() {
    let r = resolve(Inputs::new(None, info("from.txt", PathKind::File), info("to.txt", PathKind::Missing)));
    assert_eq!(r, plan("from.txt", "to.txt"));
}

#[test]
fn variables_never_overwrite_an_existing_destination() {
    let r = resolve(Inputs::new(None, info("from.txt", PathKind::File), info("to.txt", PathKind::File)));
    assert_eq!(r, Err(CopyError::DestinationExists("to.txt".to_string())));
}

#[test]
fn second_variables_run_is_refused() {
    let first = resolve(Inputs::new(None, info("from.txt", PathKind::File), info("to.txt", PathKind::Missing)));
    assert_eq!(first, plan("from.txt", "to.txt"));
    // After the first copy the destination exists as a regular file.
    let second = resolve(Inputs::new(None, info("from.txt", PathKind::File), info("to.txt", PathKind::File)));
    assert_eq!(second, Err(CopyError::DestinationExists("to.txt".to_string())));
}

#[test]
fn source_variable_overwrites_the_argument_file() {
    let r = resolve(Inputs::new(info("target.json", PathKind::File), info("myfile.json", PathKind::File), None));
    assert_eq!(r, plan("myfile.json", "target.json"));
}

#[test]
fn argument_file_is_copied_to_the_destination_variable() {
    let r = resolve(Inputs::new(info("myfile.json", PathKind::File), None, info("target.json", PathKind::File)));
    assert_eq!(r, plan("myfile.json", "target.json"));
    let r = resolve(Inputs::new(info("myfile.json", PathKind::File), None, info("target.json", PathKind::Missing)));
    assert_eq!(r, plan("myfile.json", "target.json"));
}

#[test]
fn missing_argument_file_is_refused() {
    let r = resolve(Inputs::new(info("gone.txt", PathKind::Missing), info("from.txt", PathKind::File), None));
    assert_eq!(r, Err(CopyError::ArgumentMissing("gone.txt".to_string())));
}

#[test]
fn argument_directory_is_refused() {
    let r = resolve(Inputs::new(info("dir", PathKind::Directory), None, info("to.txt", PathKind::Missing)));
    assert_eq!(r, Err(CopyError::ArgumentIsDirectory("dir".to_string())));
}

#[test]
fn no_inputs_means_nothing_to_read_or_replace() {
    let r = resolve(Inputs::new(None, None, None));
    assert_eq!(r, Err(CopyError::MissingFile));
}

#[test]
fn single_variable_without_argument_means_nothing_to_read_or_replace() {
    let r = resolve(Inputs::new(None, info("from.txt", PathKind::File), None));
    assert_eq!(r, Err(CopyError::MissingFile));
    let r = resolve(Inputs::new(None, None, info("to.txt", PathKind::Missing)));
    assert_eq!(r, Err(CopyError::MissingFile));
}

#[test]
fn argument_alone_misses_a_variable() {
    let r = resolve(Inputs::new(info("arg.txt", PathKind::File), None, None));
    assert_eq!(r, Err(CopyError::MissingVariable));
}

#[test]
fn copy_outcome_is_reported() {
    let p = CopyPlan { source: "a".to_string(), destination: "b".to_string() };
    assert_eq!(finish_copy(p, Ok(())), Ok(()));
    let p = CopyPlan { source: "a".to_string(), destination: "b".to_string() };
    assert_eq!(
        finish_copy(p, Err("denied".to_string())),
        Err(CopyError::CopyFailed("a".to_string(), "b".to_string(), "denied".to_string()))
    );
}

#[test]
fn probes_classify_paths() {
    assert_eq!(PathKind::from_probes(false, false), PathKind::Missing);
    assert_eq!(PathKind::from_probes(true, false), PathKind::File);
    assert_eq!(PathKind::from_probes(true, true), PathKind::Directory);
    assert!(PathKind::File.is_present());
    assert!(!PathKind::Missing.is_present());
    assert!(PathKind::Directory.is_dir());
    assert!(!PathKind::File.is_dir());
}

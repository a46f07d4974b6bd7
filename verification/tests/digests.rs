use assert_fs::prelude::{FileTouch, PathChild, PathCreateDir};
use assert_fs::TempDir;
use chksum::{chksum, Error, MD5, SHA2_512};
use chksum_cli::engine::{exitcode, format_result, report, ResultPair};
use chksum_cli::input::Input;
use chksum_cli::outcome::{FailureKind, Outcome};
use chksum_cli::{EXITCODE_IOERR, EXITCODE_OK};

const EMPTY_SHA2_512: &str = "cf83e1357eefb8bdf1542850d66d8007d620e4050b5715dc83f4a921d36ce9ce\
47d0d13c5d85f2b0ff8318d2877eec2f63b931bd47417a81a538327af927da3e";

fn outcome_of<T>(result: Result<T, Error>) -> Outcome
where
    T: chksum::Digest + AsRef<[u8]>,
{
    match result {
        Ok(digest) => Outcome::Digest(digest.as_bytes().to_vec()),
        Err(error) => {
            let kind = match &error {
                Error::IsTerminal => FailureKind::Format,
                Error::Io(_) => FailureKind::Io,
            };
            Outcome::Failure(kind, error.to_string())
        }
    }
}

#[test]
fn exitcode_ok() {
    let tmpdir = TempDir::new().unwrap();

    let result = chksum::<MD5>(tmpdir.path());
    assert_eq!(exitcode(&outcome_of(result)), EXITCODE_OK);
}

#[test]
fn exitcode_error() {
    let tmpdir = TempDir::new().unwrap();
    let child = tmpdir.child("child");

    let result = chksum::<MD5>(child.path());
    assert_eq!(exitcode(&outcome_of(result)), EXITCODE_IOERR);
}

#[test]
fn empty_stdin() {
    // an empty byte source digests to the algorithm's empty-input value
    let result = chksum::<SHA2_512>([0u8; 0]);
    let pair = ResultPair {
        input: Input::Stdin,
        outcome: outcome_of(result),
    };
    let (line, failed) = format_result(&pair);
    assert_eq!(line, format!("<stdin>: {EMPTY_SHA2_512}"));
    assert!(!failed);
    assert_eq!(exitcode(&pair.outcome), EXITCODE_OK);
}

#[test]
fn empty_directory() {
    let tmpdir = TempDir::new().unwrap();

    let dir = tmpdir.child("dir");
    dir.create_dir_all().unwrap();
    let display = dir.path().display().to_string();
    let pair = ResultPair {
        input: Input::Path(display.clone()),
        outcome: outcome_of(chksum::<SHA2_512>(dir.path())),
    };
    let (line, failed) = format_result(&pair);
    assert_eq!(line, format!("{display}: {EMPTY_SHA2_512}"));
    assert!(!failed);
    assert_eq!(exitcode(&pair.outcome), EXITCODE_OK);
}

#[test]
fn empty_file() {
    let tmpdir = TempDir::new().unwrap();

    let file = tmpdir.child("file");
    file.touch().unwrap();
    let display = file.path().display().to_string();
    let pair = ResultPair {
        input: Input::Path(display.clone()),
        outcome: outcome_of(chksum::<SHA2_512>(file.path())),
    };
    let (line, failed) = format_result(&pair);
    assert_eq!(line, format!("{display}: {EMPTY_SHA2_512}"));
    assert!(!failed);
}

#[test]
fn nonexistent_path() {
    let tmpdir = TempDir::new().unwrap();
    let missing = tmpdir.child("nonexistent");

    let display = missing.path().display().to_string();
    let pair = ResultPair {
        input: Input::Path(display.clone()),
        outcome: outcome_of(chksum::<SHA2_512>(missing.path())),
    };
    assert!(matches!(
        pair.outcome,
        Outcome::Failure(FailureKind::Io, _)
    ));
    let (line, failed) = format_result(&pair);
    assert!(line.starts_with(&format!("{display}: ")));
    assert!(failed);
    assert_eq!(exitcode(&pair.outcome), EXITCODE_IOERR);
}

#[test]
fn three_paths_one_missing() {
    let tmpdir = TempDir::new().unwrap();
    let first = tmpdir.child("first");
    first.touch().unwrap();
    let second = tmpdir.child("second");
    second.touch().unwrap();
    let missing = tmpdir.child("nonexistent");

    let mut pairs = Vec::new();
    for path in [first.path(), second.path(), missing.path()] {
        pairs.push(ResultPair {
            input: Input::Path(path.display().to_string()),
            outcome: outcome_of(chksum::<SHA2_512>(path)),
        });
    }
    let (lines, status) = report(&pairs);
    // exactly one line per target, and the one failure decides the status
    assert_eq!(lines.len(), 3);
    assert_eq!(
        lines[0],
        format!("{}: {EMPTY_SHA2_512}", first.path().display())
    );
    assert_eq!(
        lines[1],
        format!("{}: {EMPTY_SHA2_512}", second.path().display())
    );
    assert!(lines[2].starts_with(&format!("{}: ", missing.path().display())));
    assert_eq!(status, EXITCODE_IOERR);
}

#[test]
fn completion_order_does_not_change_status() {
    let tmpdir = TempDir::new().unwrap();
    let present = tmpdir.child("present");
    present.touch().unwrap();
    let missing = tmpdir.child("nonexistent");

    let ok_pair = ResultPair {
        input: Input::Path(present.path().display().to_string()),
        outcome: outcome_of(chksum::<SHA2_512>(present.path())),
    };
    let err_pair = ResultPair {
        input: Input::Path(missing.path().display().to_string()),
        outcome: outcome_of(chksum::<SHA2_512>(missing.path())),
    };
    let (_, first_order) = report(&vec![ok_pair.clone(), err_pair.clone()]);
    let (_, second_order) = report(&vec![err_pair, ok_pair]);
    assert_eq!(first_order, second_order);
    assert_eq!(first_order, EXITCODE_IOERR);
}

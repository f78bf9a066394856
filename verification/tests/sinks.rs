use typstfmt::args::OutputSink;
use typstfmt::run::{
    dispatch, next_status, process_document, run_check, Document, Outcome, WriteAction,
};

fn doc(name: &str, content: &str) -> Document {
    Document { name: String::from(name), content: String::from(content) }
}

#[test]
fn in_place_unchanged_writes_nothing() {
    let d = dispatch(&OutputSink::InPlace, &doc("a.typ", "x\n"), &String::from("x\n"));
    assert!(matches!(d.action, WriteAction::NoWrite));
    assert_eq!(d.outcome, Outcome::Unchanged);
}

#[test]
fn in_place_changed_overwrites_the_source() {
    let d = dispatch(&OutputSink::InPlace, &doc("a.typ", "x"), &String::from("x\n"));
    match d.action {
        WriteAction::WriteFile { path, data } => {
            assert_eq!(path, "a.typ");
            assert_eq!(data, "x\n");
        }
        _ => panic!("expected an in-place overwrite"),
    }
    assert_eq!(d.outcome, Outcome::Written);
}

#[test]
fn check_never_writes() {
    let d = dispatch(&OutputSink::Check, &doc("a.typ", "x"), &String::from("x\n"));
    assert!(matches!(d.action, WriteAction::NoWrite));
    assert_eq!(d.outcome, Outcome::Mismatch);

    let d = dispatch(&OutputSink::Check, &doc("a.typ", "x\n"), &String::from("x\n"));
    assert!(matches!(d.action, WriteAction::NoWrite));
    assert_eq!(d.outcome, Outcome::Unchanged);
}

#[test]
fn stdout_always_writes_the_formatted_text() {
    let d = dispatch(&OutputSink::Stdout, &doc("a.typ", "x\n"), &String::from("x\n"));
    match d.action {
        WriteAction::WriteStdout { data } => assert_eq!(data, "x\n"),
        _ => panic!("expected a stream write"),
    }
    assert_eq!(d.outcome, Outcome::Written);
}

#[test]
fn to_file_writes_to_the_fixed_destination() {
    let d = dispatch(
        &OutputSink::ToFile(String::from("out.typ")),
        &doc("a.typ", "x\n"),
        &String::from("x\n"),
    );
    match d.action {
        WriteAction::WriteFile { path, data } => {
            assert_eq!(path, "out.typ");
            assert_eq!(data, "x\n");
        }
        _ => panic!("expected a write to the destination file"),
    }
    assert_eq!(d.outcome, Outcome::Written);
}

#[test]
fn status_is_sticky_and_only_mismatch_raises_it() {
    assert_eq!(next_status(0, Outcome::Unchanged), 0);
    assert_eq!(next_status(0, Outcome::Written), 0);
    assert_eq!(next_status(0, Outcome::Mismatch), 1);
    assert_eq!(next_status(1, Outcome::Unchanged), 1);
    assert_eq!(next_status(1, Outcome::Written), 1);
    assert_eq!(next_status(1, Outcome::Mismatch), 1);
}

#[test]
fn check_run_flags_one_mismatch_among_many() {
    let docs = vec![doc("a.typ", "x\n"), doc("b.typ", "y"), doc("c.typ", "z\n")];
    let formatted = vec![String::from("x\n"), String::from("y\n"), String::from("z\n")];
    let (outcomes, status) = run_check(&docs, &formatted);
    assert_eq!(outcomes, vec![Outcome::Unchanged, Outcome::Mismatch, Outcome::Unchanged]);
    assert_eq!(status, 1);
}

#[test]
fn check_run_of_formatted_documents_exits_zero() {
    let docs = vec![doc("a.typ", "x\n"), doc("b.typ", "y\n")];
    let formatted = vec![String::from("x\n"), String::from("y\n")];
    let (outcomes, status) = run_check(&docs, &formatted);
    assert_eq!(outcomes, vec![Outcome::Unchanged, Outcome::Unchanged]);
    assert_eq!(status, 0);
}

#[test]
fn empty_check_run_exits_zero() {
    let (outcomes, status) = run_check(&vec![], &vec![]);
    assert!(outcomes.is_empty());
    assert_eq!(status, 0);
}

#[test]
fn check_then_format_then_check() {
    // A file whose formatter normalizes "let x=1" to "let x = 1\n".
    let original = doc("a.typ", "let x=1");
    let formatted = String::from("let x = 1\n");

    // First run, check mode: exit status 1, and no write touches the file.
    let (d, status) = process_document(&OutputSink::Check, &original, &formatted, 0);
    assert!(matches!(d.action, WriteAction::NoWrite));
    assert_eq!(d.outcome, Outcome::Mismatch);
    assert_eq!(status, 1);

    // Second run, default in-place mode: the file is overwritten with the
    // formatted text and the run exits 0.
    let (d, status) = process_document(&OutputSink::InPlace, &original, &formatted, 0);
    let rewritten = match d.action {
        WriteAction::WriteFile { path, data } => {
            assert_eq!(path, "a.typ");
            assert_eq!(data, "let x = 1\n");
            doc("a.typ", &data)
        }
        _ => panic!("expected an in-place overwrite"),
    };
    assert_eq!(d.outcome, Outcome::Written);
    assert_eq!(status, 0);

    // Third run, check mode on the rewritten file: clean exit.
    let (d, status) = process_document(&OutputSink::Check, &rewritten, &formatted, 0);
    assert!(matches!(d.action, WriteAction::NoWrite));
    assert_eq!(d.outcome, Outcome::Unchanged);
    assert_eq!(status, 0);
}

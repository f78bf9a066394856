//! The per-document cycle and the exit-status aggregate.
//!
//! Every run formats each document against one shared configuration and
//! hands the pair of original and formatted text to the active output
//! sink. The sink decides what, if anything, is written and reports one
//! of three outcomes; only the check sink can report a mismatch, and a
//! single mismatch anywhere in the run pins the final exit status to 1.
use vstd::prelude::*;
use crate::args::{OutputSink, SinkModel};

verus! {

/// One unit of work: a display name (a file path, or the literal name of
/// the standard-input stream) and the text read from it.
pub struct Document {
    pub name: String,
    pub content: String,
}

/// The ghost counterpart of `Document`.
pub struct DocumentModel {
    pub name: Seq<char>,
    pub content: Seq<char>,
}

impl View for Document {
    type V = DocumentModel;

    open spec fn view(&self) -> DocumentModel {
        DocumentModel { name: self.name@, content: self.content@ }
    }
}

impl DeepView for Document {
    type V = DocumentModel;

    open spec fn deep_view(&self) -> DocumentModel {
        self.view()
    }
}

/// What a sink reports for one document.
#[derive(Clone, Copy, PartialEq, Eq, Structural, Debug)]
pub enum Outcome {
    /// Formatting changed nothing, and nothing was written.
    Unchanged,
    /// The formatted text was sent to its destination.
    Written,
    /// Check mode found a document whose formatted form differs; nothing
    /// was written. This is the only outcome that feeds the exit status.
    Mismatch,
}

/// The write a sink asks for, if any. Performing it — and aborting the
/// whole run if it fails — is the caller's part.
pub enum WriteAction {
    /// Leave the filesystem and the output stream untouched.
    NoWrite,
    /// Create or truncate `path` and write `data` to it.
    WriteFile { path: String, data: String },
    /// Append `data` to the standard output stream.
    WriteStdout { data: String },
}

/// The ghost counterpart of `WriteAction`.
#[verifier::ext_equal]
pub enum ActionModel {
    NoWrite,
    WriteFile { path: Seq<char>, data: Seq<char> },
    WriteStdout { data: Seq<char> },
}

impl View for WriteAction {
    type V = ActionModel;

    open spec fn view(&self) -> ActionModel {
        match self {
            WriteAction::NoWrite => ActionModel::NoWrite,
            WriteAction::WriteFile { path, data } => (ActionModel::WriteFile {
                path: path@,
                data: data@,
            }),
            WriteAction::WriteStdout { data } => (ActionModel::WriteStdout { data: data@ }),
        }
    }
}

/// A sink's full answer for one document.
pub struct Dispatch {
    pub action: WriteAction,
    pub outcome: Outcome,
}

/// The outcome a sink reports for given original and formatted text.
pub open spec fn spec_outcome(sink: SinkModel, content: Seq<char>, formatted: Seq<char>) -> Outcome {
    match sink {
        SinkModel::InPlace => if formatted == content {
            Outcome::Unchanged
        } else {
            Outcome::Written
        },
        SinkModel::Check => if formatted == content {
            Outcome::Unchanged
        } else {
            Outcome::Mismatch
        },
        SinkModel::Stdout => Outcome::Written,
        SinkModel::ToFile(_) => Outcome::Written,
    }
}

/// The write a sink asks for, for a document of the given name with the
/// given original and formatted text.
pub open spec fn spec_action(
    sink: SinkModel,
    name: Seq<char>,
    content: Seq<char>,
    formatted: Seq<char>,
) -> ActionModel {
    match sink {
        SinkModel::InPlace => if formatted == content {
            ActionModel::NoWrite
        } else {
            ActionModel::WriteFile { path: name, data: formatted }
        },
        SinkModel::Check => ActionModel::NoWrite,
        SinkModel::Stdout => ActionModel::WriteStdout { data: formatted },
        SinkModel::ToFile(path) => ActionModel::WriteFile { path: path, data: formatted },
    }
}

/// Hands one document and its formatted text to the sink and returns the
/// write it asks for together with its outcome. The in-place sink leaves
/// an already-formatted file alone; the check sink never writes; the
/// stream and fixed-file sinks always write the formatted text.
pub fn dispatch(sink: &OutputSink, doc: &Document, formatted: &String) -> (d: Dispatch)
    ensures
        d.action@ == spec_action(sink@, doc.name@, doc.content@, formatted@),
        d.outcome == spec_outcome(sink@, doc.content@, formatted@),
{
    match sink {
        OutputSink::InPlace => {
            if *formatted == doc.content {
                Dispatch { action: WriteAction::NoWrite, outcome: Outcome::Unchanged }
            } else {
                Dispatch {
                    action: WriteAction::WriteFile {
                        path: doc.name.clone(),
                        data: formatted.clone(),
                    },
                    outcome: Outcome::Written,
                }
            }
        },
        OutputSink::Check => {
            if *formatted == doc.content {
                Dispatch { action: WriteAction::NoWrite, outcome: Outcome::Unchanged }
            } else {
                Dispatch { action: WriteAction::NoWrite, outcome: Outcome::Mismatch }
            }
        },
        OutputSink::Stdout => Dispatch {
            action: WriteAction::WriteStdout { data: formatted.clone() },
            outcome: Outcome::Written,
        },
        OutputSink::ToFile(path) => Dispatch {
            action: WriteAction::WriteFile { path: path.clone(), data: formatted.clone() },
            outcome: Outcome::Written,
        },
    }
}

/// How one outcome moves the exit status: a mismatch pins it to 1, and
/// anything else leaves it alone.
pub open spec fn spec_next_status(status: int, outcome: Outcome) -> int {
    if outcome is Mismatch {
        1
    } else {
        status
    }
}

/// Folds one outcome into the running exit status.
pub fn next_status(status: i32, outcome: Outcome) -> (updated: i32)
    ensures
        updated == spec_next_status(status as int, outcome),
{
    if matches!(outcome, Outcome::Mismatch) {
        1
    } else {
        status
    }
}

/// One turn of the run loop: dispatch a document, already formatted, to
/// the sink and fold the outcome into the exit status.
pub fn process_document(sink: &OutputSink, doc: &Document, formatted: &String, status: i32) -> (r: (
    Dispatch,
    i32,
))
    ensures
        r.0.action@ == spec_action(sink@, doc.name@, doc.content@, formatted@),
        r.0.outcome == spec_outcome(sink@, doc.content@, formatted@),
        r.1 == spec_next_status(status as int, r.0.outcome),
{
    let d = dispatch(sink, doc, formatted);
    let outcome = d.outcome;
    (d, next_status(status, outcome))
}

/// The exit status that a sequence of outcomes folds to, starting from
/// `status`.
pub open spec fn fold_status(status: int, outcomes: Seq<Outcome>) -> int
    decreases outcomes.len(),
{
    if outcomes.len() == 0 {
        status
    } else {
        fold_status(spec_next_status(status, outcomes[0]), outcomes.drop_first())
    }
}

/// Whether any outcome in the sequence is a mismatch.
pub open spec fn has_mismatch(outcomes: Seq<Outcome>) -> bool {
    exists|i: int| 0 <= i < outcomes.len() && #[trigger] outcomes[i] is Mismatch
}

/// The exit-status fold in one step: it ends at 1 when some outcome is a
/// mismatch, and otherwise returns its starting point unchanged. In
/// particular the status is sticky — once at 1, no later outcome resets
/// it.
pub proof fn lemma_fold_status(status: int, outcomes: Seq<Outcome>)
    ensures
        fold_status(status, outcomes) == if has_mismatch(outcomes) {
            1int
        } else {
            status
        },
    decreases outcomes.len(),
{
    if outcomes.len() == 0 {
    } else {
        let tail = outcomes.drop_first();
        lemma_fold_status(spec_next_status(status, outcomes[0]), tail);
        if has_mismatch(outcomes) {
            if !(outcomes[0] is Mismatch) {
                let j = choose|j: int| 0 <= j < outcomes.len() && #[trigger] outcomes[j] is Mismatch;
                assert(tail[j - 1] is Mismatch);
            }
        } else {
            assert(!has_mismatch(tail)) by {
                if has_mismatch(tail) {
                    let j = choose|j: int| 0 <= j < tail.len() && #[trigger] tail[j] is Mismatch;
                    assert(outcomes[j + 1] is Mismatch);
                }
            }
        }
    }
}

/// Check-mode correctness: the final exit status of a whole check run is
/// 1 exactly when at least one document's formatted text differs from
/// its content, and 0 otherwise.
pub proof fn lemma_check_run_status(contents: Seq<Seq<char>>, formatted: Seq<Seq<char>>)
    requires
        contents.len() == formatted.len(),
    ensures
        fold_status(
            0,
            Seq::new(contents.len(), |i: int| spec_outcome(SinkModel::Check, contents[i], formatted[i])),
        ) == 1 <==> (exists|i: int|
            0 <= i < contents.len() && #[trigger] formatted[i] != contents[i]),
        fold_status(
            0,
            Seq::new(contents.len(), |i: int| spec_outcome(SinkModel::Check, contents[i], formatted[i])),
        ) == 0 <==> (forall|i: int| 0 <= i < contents.len() ==> #[trigger] formatted[i] == contents[i]),
{
    let outcomes = Seq::new(
        contents.len(),
        |i: int| spec_outcome(SinkModel::Check, contents[i], formatted[i]),
    );
    lemma_fold_status(0, outcomes);
    assert(has_mismatch(outcomes) <==> (exists|i: int|
        0 <= i < contents.len() && #[trigger] formatted[i] != contents[i])) by {
        if has_mismatch(outcomes) {
            let j = choose|j: int| 0 <= j < outcomes.len() && #[trigger] outcomes[j] is Mismatch;
            assert(formatted[j] != contents[j]);
        }
        if exists|i: int| 0 <= i < contents.len() && #[trigger] formatted[i] != contents[i] {
            let j = choose|j: int| 0 <= j < contents.len() && #[trigger] formatted[j] != contents[j];
            assert(outcomes[j] is Mismatch);
        }
    }
}

/// In-place no-op: when the formatted text equals what the document
/// already holds, the in-place sink asks for no write at all, and the
/// document counts as unchanged.
pub proof fn lemma_in_place_no_op(name: Seq<char>, content: Seq<char>, formatted: Seq<char>)
    requires
        formatted == content,
    ensures
        spec_action(SinkModel::InPlace, name, content, formatted) is NoWrite,
        spec_outcome(SinkModel::InPlace, content, formatted) is Unchanged,
{
}

/// Runs check mode over documents that were all read up front, with
/// their formatted counterparts given in the same order: reports each
/// document's outcome and the aggregate exit status.
pub fn run_check(docs: &Vec<Document>, formatted: &Vec<String>) -> (r: (Vec<Outcome>, i32))
    requires
        docs.len() == formatted.len(),
    ensures
        r.0.len() == docs.len(),
        forall|i: int|
            0 <= i < docs.len() ==> r.0[i] == spec_outcome(
                SinkModel::Check,
                #[trigger] docs[i].content@,
                formatted[i]@,
            ),
        r.1 == fold_status(0, r.0@),
        r.1 == 1 <==> (exists|i: int| 0 <= i < docs.len() && #[trigger] formatted[i]@ != docs[i].content@),
        r.1 == 0 <==> (forall|i: int| 0 <= i < docs.len() ==> #[trigger] formatted[i]@ == docs[i].content@),
{
    let mut outcomes: Vec<Outcome> = Vec::new();
    let mut status: i32 = 0;
    let mut i: usize = 0;
    while i < docs.len()
        invariant
            docs.len() == formatted.len(),
            0 <= i <= docs.len(),
            outcomes.len() == i,
            forall|j: int|
                0 <= j < i ==> outcomes[j] == spec_outcome(
                    SinkModel::Check,
                    #[trigger] docs[j].content@,
                    formatted[j]@,
                ),
            status == 0 || status == 1,
            status == 1 <==> (exists|j: int|
                0 <= j < i && #[trigger] formatted[j]@ != docs[j].content@),
        decreases docs.len() - i,
    {
        let mismatch = formatted[i] != docs[i].content;
        let outcome = if mismatch {
            Outcome::Mismatch
        } else {
            Outcome::Unchanged
        };
        outcomes.push(outcome);
        status = next_status(status, outcome);
        proof {
            if mismatch {
                assert(formatted[i as int]@ != docs[i as int].content@);
            }
        }
        i = i + 1;
    }
    proof {
        lemma_fold_status(0, outcomes@);
        if has_mismatch(outcomes@) {
            let j = choose|j: int| 0 <= j < outcomes@.len() && #[trigger] outcomes@[j] is Mismatch;
            assert(formatted[j]@ != docs[j].content@);
        }
        if exists|j: int| 0 <= j < docs.len() && #[trigger] formatted[j]@ != docs[j].content@ {
            let j = choose|j: int|
                0 <= j < docs.len() && #[trigger] formatted[j]@ != docs[j].content@;
            assert(outcomes@[j] is Mismatch);
        }
    }
    (outcomes, status)
}

} // verus!

//! The batch writer: which file operation comes next, given how the earlier
//! ones ended.
//!
//! The writer never touches the file system. It names one operation at a
//! time, with the full path of the file it concerns; the caller performs it
//! and reports the outcome. A batch first makes
//! sure that the directory exists, then writes one file per attachment, in
//! order. The first write that fails ends the batch: the files written so far
//! are removed again, in the order in which they were written and whatever
//! becomes of each removal, and the batch reports the cause of that failure.

use crate::attachment::{Attachment, AttachmentView};
use crate::error::{ErrorView, ExtractError};
use vstd::prelude::*;
use vstd::string::*;

verus! {

/// How a file operation ended, as plain mathematical values.
pub enum OutcomeView {
    Succeeded,
    Failed { cause: Seq<char> },
}

/// A file operation, or the end of the batch, as plain mathematical values.
pub enum ActionView {
    CreateDirectory { directory: Seq<char> },
    WriteFile { path: Seq<char>, bytes: Seq<u8> },
    RemoveFile { path: Seq<char> },
    Finished { result: Result<Seq<Seq<char>>, ErrorView> },
}

/// Where a batch stands.
pub enum PhaseView {
    /// The directory has not been created yet.
    Preparing,
    /// The first `index` attachments are on disk.
    Writing { index: nat },
    /// A step failed with `cause` after `written` files were on disk, and
    /// `removed` of them have been taken care of since.
    Failing { removed: nat, written: nat, cause: Seq<char> },
}

/// A batch as plain mathematical values.
pub struct WriterView {
    pub attachments: Seq<AttachmentView>,
    pub directory: Seq<char>,
    pub prefix: Seq<char>,
    pub phase: PhaseView,
}

/// The name of the file that holds an attachment.
pub open spec fn stored_name(prefix: Seq<char>, attachment: AttachmentView) -> Seq<char> {
    prefix + attachment.name
}

/// The directory that the paths of a batch start from: the directory of the
/// batch, or the current directory where that is the empty text.
pub open spec fn base_directory(directory: Seq<char>) -> Seq<char> {
    if directory.len() == 0 {
        "."@
    } else {
        directory
    }
}

/// The path of a file of a batch: the directory, one separator, and the file
/// name as it stands. A file name that begins with a separator is not taken
/// as an absolute path: it, too, comes after the directory.
pub open spec fn stored_path(directory: Seq<char>, filename: Seq<char>) -> Seq<char> {
    base_directory(directory) + "/"@ + filename
}

/// The names of the files that hold a list of attachments, in order.
pub open spec fn stored_names(prefix: Seq<char>, attachments: Seq<AttachmentView>) -> Seq<
    Seq<char>,
> {
    Seq::new(attachments.len(), |i: int| stored_name(prefix, attachments[i]))
}

impl WriterView {
    /// A batch on which no step has been taken.
    pub open spec fn initial(
        attachments: Seq<AttachmentView>,
        directory: Seq<char>,
        prefix: Seq<char>,
    ) -> WriterView {
        WriterView { attachments, directory, prefix, phase: PhaseView::Preparing }
    }

    /// The counters of the phase lie within the batch.
    pub open spec fn wf(self) -> bool {
        match self.phase {
            PhaseView::Preparing => true,
            PhaseView::Writing { index } => index <= self.attachments.len(),
            PhaseView::Failing { removed, written, .. } => removed <= written
                <= self.attachments.len(),
        }
    }

    /// The step that the batch asks for next.
    pub open spec fn pending(self) -> ActionView {
        match self.phase {
            PhaseView::Preparing => ActionView::CreateDirectory { directory: self.directory },
            PhaseView::Writing { index } => if index < self.attachments.len() {
                ActionView::WriteFile {
                    path: stored_path(
                        self.directory,
                        stored_name(self.prefix, self.attachments[index as int]),
                    ),
                    bytes: self.attachments[index as int].content_bytes,
                }
            } else {
                ActionView::Finished { result: Ok(stored_names(self.prefix, self.attachments)) }
            },
            PhaseView::Failing { removed, written, cause } => if removed < written {
                ActionView::RemoveFile {
                    path: stored_path(
                        self.directory,
                        stored_name(self.prefix, self.attachments[removed as int]),
                    ),
                }
            } else {
                ActionView::Finished { result: Err(ErrorView::IoError(cause)) }
            },
        }
    }

    /// Whether the batch has ended.
    pub open spec fn finished(self) -> bool {
        self.pending() is Finished
    }

    /// The batch after its pending step ended with `outcome`.
    pub open spec fn after(self, outcome: OutcomeView) -> WriterView {
        let phase = match self.phase {
            PhaseView::Preparing => match outcome {
                OutcomeView::Succeeded => PhaseView::Writing { index: 0 },
                OutcomeView::Failed { cause } => PhaseView::Failing { removed: 0, written: 0, cause },
            },
            PhaseView::Writing { index } => if index < self.attachments.len() {
                match outcome {
                    OutcomeView::Succeeded => PhaseView::Writing { index: index + 1 },
                    OutcomeView::Failed { cause } => PhaseView::Failing {
                        removed: 0,
                        written: index,
                        cause,
                    },
                }
            } else {
                self.phase
            },
            PhaseView::Failing { removed, written, cause } => if removed < written {
                PhaseView::Failing { removed: removed + 1, written, cause }
            } else {
                self.phase
            },
        };
        WriterView { phase, ..self }
    }

    /// The batch after its steps ended with `outcomes`, one after the other.
    pub open spec fn run(self, outcomes: Seq<OutcomeView>) -> WriterView
        decreases outcomes.len(),
    {
        if outcomes.len() == 0 {
            self
        } else {
            self.run(outcomes.drop_last()).after(outcomes.last())
        }
    }
}

/// How a file operation ended.
#[derive(Debug)]
pub enum WriteOutcome {
    Succeeded,
    /// The operation failed; the text describes the cause.
    Failed { cause: String },
}

impl View for WriteOutcome {
    type V = OutcomeView;

    open spec fn view(&self) -> OutcomeView {
        match self {
            WriteOutcome::Succeeded => OutcomeView::Succeeded,
            WriteOutcome::Failed { cause } => OutcomeView::Failed { cause: cause@ },
        }
    }
}

/// The step that a batch asks for: a file operation to perform, or the end of
/// the batch with its result.
#[derive(Debug)]
pub enum WriteAction<'a> {
    /// Create the directory and every missing parent; an existing directory
    /// counts as success.
    CreateDirectory { directory: &'a str },
    /// Write `bytes` to the file at `path`, replacing what is there.
    WriteFile { path: String, bytes: &'a [u8] },
    /// Remove the file at `path`.
    RemoveFile { path: String },
    /// The batch is over: the names of the files written, or the failure.
    Finished { result: Result<Vec<String>, ExtractError> },
}

impl<'a> View for WriteAction<'a> {
    type V = ActionView;

    open spec fn view(&self) -> ActionView {
        match self {
            WriteAction::CreateDirectory { directory } => ActionView::CreateDirectory {
                directory: directory@,
            },
            WriteAction::WriteFile { path, bytes } => ActionView::WriteFile {
                path: path@,
                bytes: bytes@,
            },
            WriteAction::RemoveFile { path } => ActionView::RemoveFile { path: path@ },
            WriteAction::Finished { result } => ActionView::Finished {
                result: match result {
                    Ok(filenames) => Ok(filenames.deep_view()),
                    Err(error) => Err(error@),
                },
            },
        }
    }
}

/// The path of the file `filename` of a batch bound for `directory`: the
/// directory (the current one where `directory` is empty), one separator, and
/// the file name as it stands.
pub fn file_path(directory: &str, filename: &str) -> (path: String)
    ensures
        path@ == stored_path(directory@, filename@),
{
    let mut path = if directory.is_empty() {
        ".".to_owned()
    } else {
        directory.to_owned()
    };
    path.append("/");
    path.append(filename);
    path
}

enum Phase {
    Preparing,
    Writing,
    Failing { cause: String },
}

/// A batch of attachments on its way to a directory.
pub struct DiskWriter {
    attachments: Vec<Attachment>,
    directory: String,
    prefix: String,
    written: Vec<String>,
    removed: usize,
    phase: Phase,
}

impl DiskWriter {
    #[verifier::type_invariant]
    spec fn consistent(self) -> bool {
        &&& self.written@.len() <= self.attachments@.len()
        &&& self.removed <= self.written@.len()
        &&& forall|i: int|
            0 <= i < self.written@.len() ==> (#[trigger] self.written@[i])@ == stored_name(
                self.prefix@,
                self.attachments@[i]@,
            )
        &&& self.phase is Preparing ==> self.written@.len() == 0
        &&& !(self.phase is Failing) ==> self.removed == 0
    }

    /// The batch as plain mathematical values.
    pub closed spec fn view(&self) -> WriterView {
        WriterView {
            attachments: self.attachments.deep_view(),
            directory: self.directory@,
            prefix: self.prefix@,
            phase: match self.phase {
                Phase::Preparing => PhaseView::Preparing,
                Phase::Writing => PhaseView::Writing { index: self.written@.len() },
                Phase::Failing { cause } => PhaseView::Failing {
                    removed: self.removed as nat,
                    written: self.written@.len(),
                    cause: cause@,
                },
            },
        }
    }

    /// A batch that will store `attachments` in `directory`, each under its
    /// name with `prefix` in front.
    pub fn new(attachments: Vec<Attachment>, directory: String, prefix: String) -> (writer: Self)
        ensures
            writer@ == WriterView::initial(attachments.deep_view(), directory@, prefix@),
    {
        DiskWriter {
            attachments,
            directory,
            prefix,
            written: Vec::new(),
            removed: 0,
            phase: Phase::Preparing,
        }
    }

    /// The step to perform next. It stays the same until its outcome is
    /// recorded.
    pub fn pending(&self) -> (action: WriteAction<'_>)
        ensures
            action@ == self@.pending(),
            self@.wf(),
    {
        proof {
            use_type_invariant(self);
        }
        let directory = self.directory.as_str();
        match &self.phase {
            Phase::Preparing => WriteAction::CreateDirectory { directory },
            Phase::Writing => {
                let index = self.written.len();
                if index < self.attachments.len() {
                    let attachment = &self.attachments[index];
                    let mut filename = self.prefix.clone();
                    filename.append(attachment.name.as_str());
                    WriteAction::WriteFile {
                        path: file_path(directory, filename.as_str()),
                        bytes: attachment.content_bytes.as_slice(),
                    }
                } else {
                    let filenames = self.written.clone();
                    assert(filenames.deep_view() == stored_names(
                        self.prefix@,
                        self.attachments.deep_view(),
                    ));
                    WriteAction::Finished { result: Ok(filenames) }
                }
            },
            Phase::Failing { cause } => {
                if self.removed < self.written.len() {
                    WriteAction::RemoveFile {
                        path: file_path(directory, self.written[self.removed].as_str()),
                    }
                } else {
                    WriteAction::Finished { result: Err(ExtractError::IoError(cause.clone())) }
                }
            },
        }
    }

    /// Whether the batch has ended.
    pub fn is_finished(&self) -> (finished: bool)
        ensures
            finished == self@.finished(),
    {
        proof {
            use_type_invariant(self);
        }
        match &self.phase {
            Phase::Preparing => false,
            Phase::Writing => self.written.len() >= self.attachments.len(),
            Phase::Failing { .. } => self.removed >= self.written.len(),
        }
    }

    /// The batch after its pending step has ended with `outcome`.
    ///
    /// A failed removal is not an error: the batch goes on to the next file
    /// and still reports the failure that started the removals. Once the
    /// batch has ended, outcomes change nothing.
    pub fn record(self, outcome: WriteOutcome) -> (next: Self)
        ensures
            next@ == self@.after(outcome@),
            next@.wf(),
    {
        proof {
            use_type_invariant(&self);
        }
        let DiskWriter { attachments, directory, prefix, mut written, mut removed, mut phase } = self;
        match &phase {
            Phase::Preparing => match outcome {
                WriteOutcome::Succeeded => {
                    phase = Phase::Writing;
                },
                WriteOutcome::Failed { cause } => {
                    phase = Phase::Failing { cause };
                },
            },
            Phase::Writing => {
                let index = written.len();
                if index < attachments.len() {
                    match outcome {
                        WriteOutcome::Succeeded => {
                            let mut filename = prefix.clone();
                            filename.append(attachments[index].name.as_str());
                            written.push(filename);
                        },
                        WriteOutcome::Failed { cause } => {
                            phase = Phase::Failing { cause };
                        },
                    }
                }
            },
            Phase::Failing { .. } => {
                if removed < written.len() {
                    removed = removed + 1;
                }
            },
        }
        DiskWriter { attachments, directory, prefix, written, removed, phase }
    }
}

} // verus!

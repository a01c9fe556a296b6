//! What the cache asks to be done to the file system, step by step.

use crate::io::IoError;
use vstd::prelude::*;

verus! {

/// One operation on the file system. The caller carries the steps of a plan out
/// in their order and stops at the first failure that [`Step::settle`] does not
/// forgive.
#[derive(Debug, Clone)]
pub enum Step {
    /// Create the directory and every missing ancestor of it.
    CreateDirAll { path: String },
    /// Put the tag file into the directory that marks it as a cache, unless it
    /// is there.
    EnsureTag { dir: String },
    /// Create the file and write `contents` to it. That the file exists
    /// already is no failure: it is left as it is.
    CreateNew { path: String, contents: Vec<u8> },
    /// Create the file unless it exists, and leave what it holds.
    Touch { path: String },
    /// Resolve the path to its canonical form.
    Canonicalize { path: String },
    /// Move the directory `from` to `to`.
    Rename { from: String, to: String },
    /// Make `link` a symlink to `target`, in place of what was there before,
    /// in one step.
    ReplaceSymlink { target: String, link: String },
}

/// A step, as the contracts see it.
pub enum StepView {
    CreateDirAll { path: Seq<char> },
    EnsureTag { dir: Seq<char> },
    CreateNew { path: Seq<char>, contents: Seq<u8> },
    Touch { path: Seq<char> },
    Canonicalize { path: Seq<char> },
    Rename { from: Seq<char>, to: Seq<char> },
    ReplaceSymlink { target: Seq<char>, link: Seq<char> },
}

impl View for Step {
    type V = StepView;

    open spec fn view(&self) -> StepView {
        match *self {
            Step::CreateDirAll { path } => StepView::CreateDirAll { path: path@ },
            Step::EnsureTag { dir } => StepView::EnsureTag { dir: dir@ },
            Step::CreateNew { path, contents } => StepView::CreateNew {
                path: path@,
                contents: contents@,
            },
            Step::Touch { path } => StepView::Touch { path: path@ },
            Step::Canonicalize { path } => StepView::Canonicalize { path: path@ },
            Step::Rename { from, to } => StepView::Rename { from: from@, to: to@ },
            Step::ReplaceSymlink { target, link } => StepView::ReplaceSymlink {
                target: target@,
                link: link@,
            },
        }
    }
}

/// The steps of a plan, as the contracts see them.
pub open spec fn views(steps: Seq<Step>) -> Seq<StepView> {
    steps.map_values(|step: Step| step@)
}

impl StepView {
    /// Whether the step forgives a failure of the kind "exists already".
    pub open spec fn forgives_existing(self) -> bool {
        self is CreateNew
    }

    /// What a plan makes of the outcome of this step: success, a failure that
    /// the step forgives, or the failure that ends the plan.
    pub open spec fn settled(self, outcome: Result<(), IoError>) -> Result<(), IoError> {
        match outcome {
            Ok(done) => Ok(done),
            Err(error) => if self.forgives_existing() && error.kind is AlreadyExists {
                Ok(())
            } else {
                Err(error)
            },
        }
    }
}

impl Step {
    /// What the plan makes of the outcome of this step. A file that was to be
    /// created and exists already is left alone; every other failure ends the
    /// plan and is handed on as it came.
    pub fn settle(&self, outcome: Result<(), IoError>) -> (settled: Result<(), IoError>)
        ensures
            settled == self@.settled(outcome),
    {
        match outcome {
            Ok(done) => Ok(done),
            Err(error) => {
                let forgiving = match self {
                    Step::CreateNew { .. } => true,
                    _ => false,
                };
                if forgiving && error.is_already_exists() {
                    Ok(())
                } else {
                    Err(error)
                }
            },
        }
    }
}

} // verus!

//! What can be checked and what can be run.
use vstd::prelude::*;
use lopdf::Bookmark;
use crate::errors::{MergeCheckError, MergeRunError};
use crate::merge::{Merge, PathFacts};
use crate::merger::Source;

verus! {

/// Something whose safety is checked before it runs.
pub trait CheckableItem {
    /// What the check is told.
    type Facts;

    /// What the check answers.
    type CheckableOutput;

    /// Whether the facts speak of this item.
    spec fn can_check(&self, facts: &Self::Facts) -> bool;

    /// Whether `output` is the answer of the check.
    spec fn checked(&self, facts: &Self::Facts, output: Self::CheckableOutput) -> bool;

    /// Checks whether the item is safe.
    fn check_item(&self, facts: &Self::Facts) -> (r: Self::CheckableOutput)
        requires
            self.can_check(facts),
        ensures
            self.checked(facts, r),
    ;
}

/// Something that runs on what it is handed.
pub trait RunnableItem {
    /// What the run is handed.
    type ArgType;

    /// What the run gives.
    type Output;

    /// Whether `output` is what the run gives.
    spec fn ran(&self, arg: &Self::ArgType, output: Self::Output) -> bool;

    /// Runs the item.
    fn run_item(&self, arg: &Self::ArgType) -> (r: Self::Output)
        ensures
            self.ran(arg, r),
    ;
}

/// What a merge runs on.
pub struct MergeInput {
    /// The files to merge, read, in the order of the merge.
    pub sources: Vec<Source>,
    /// The colour and the format of the bookmarks.
    pub style: Bookmark,
}

impl CheckableItem for Merge {
    type Facts = PathFacts;

    type CheckableOutput = Result<(), MergeCheckError>;

    open spec fn can_check(&self, facts: &PathFacts) -> bool {
        self.described_by(*facts)
    }

    open spec fn checked(&self, facts: &PathFacts, output: Result<(), MergeCheckError>) -> bool {
        output == self.check_outcome(*facts)
    }

    fn check_item(&self, facts: &PathFacts) -> (r: Result<(), MergeCheckError>) {
        Merge::check_item(self, facts)
    }
}

impl RunnableItem for Merge {
    type ArgType = MergeInput;

    type Output = Result<Vec<u8>, MergeRunError>;

    open spec fn ran(&self, arg: &MergeInput, output: Result<Vec<u8>, MergeRunError>) -> bool {
        self.run_result(arg.sources@, arg.style, output)
    }

    fn run_item(&self, arg: &MergeInput) -> (r: Result<Vec<u8>, MergeRunError>) {
        Merge::run_item(self, &arg.sources, &arg.style)
    }
}

} // verus!

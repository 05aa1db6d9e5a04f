//! Error taxonomies of the three stages of a merge.
use vstd::prelude::*;

verus! {

/// Why the command-line arguments could not be turned into a merge request.
#[derive(Clone, Debug, PartialEq)]
pub enum MergeBuildError {
    /// No input path was given.
    InputIsEmpty,
    /// No output path was given.
    OutputIsEmpty,
    /// The depth token is neither `*` nor a positive number.
    UnparseableDepth(String),
    /// The ordering token is none of `alpha`, `datetime`, `def`.
    UnparseableOrderMode(String),
}

/// Why a merge request was refused before anything was read.
#[derive(Clone, Debug, PartialEq)]
pub enum MergeCheckError {
    /// A single file was given as the whole input.
    InputIsSingleFile(String),
    /// The output path is an existing directory.
    OutputIsDirectory(String),
    /// An input path holds a `..` component.
    InputIsDirectoryReference(String),
    /// The output path holds a `..` component.
    OutputIsDirectoryReference(String),
    /// An input file has an extension other than `pdf`.
    InputIsNotPdfFile(String),
    /// The output path has an extension other than `pdf`.
    OutputIsNotPdfFile(String),
    /// An input path was given twice and repetition is not allowed.
    InputRepetitionWithoutFlag(String),
    /// The output exists and overriding is not allowed.
    OutputAlreadyExists(String),
    /// The existence of the output could not be determined.
    CouldNotReadOrCheckFilePath(String),
    /// A directory above the output is missing and may not be created.
    ParentOutputWithoutFlag(String),
    /// A directory was given as input without a depth.
    DepthNotSpecified,
}

/// Why a merge failed while it ran.
#[derive(Clone, Debug, PartialEq)]
pub enum MergeRunError {
    /// An entry could not be inspected or listed.
    CouldNotReadEntry(String),
    /// The expanded inputs hold a path twice and repetition is not allowed.
    PathRepetitionWithoutFlag(String),
    /// An entry does not exist.
    EntryDoesNotExists(String),
    /// A source could not be decoded as a PDF document.
    CouldNotLoadInput(String),
    /// The merged document could not be written.
    CouldNotSaveTheOutput(String),
    /// No source holds a page tree root.
    RootPageNotFound,
    /// No source holds a catalog.
    CatalogIsNone,
}

} // verus!

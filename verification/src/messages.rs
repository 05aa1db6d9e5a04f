//! What the errors say.
use vstd::prelude::*;
use crate::errors::{MergeBuildError, MergeCheckError, MergeRunError};
use crate::print::{Message, PrintableItem, Shown, Tone};

verus! {

/// A sentence that ends in a value between backticks and brackets.
pub open spec fn quoted(lead: Seq<char>, value: Seq<char>, tone: Tone) -> Seq<Shown> {
    seq![Shown::Text(lead, Tone::Plain), Shown::Text(value, tone), Shown::Text("`)"@, Tone::Plain)]
}

/// A sentence in the default tone.
pub open spec fn said(sentence: Seq<char>) -> Seq<Shown> {
    seq![Shown::Text(sentence, Tone::Plain)]
}

/// A sentence that ends in a value between backticks and brackets.
fn quote(lead: &str, value: &str, tone: Tone) -> (r: Message)
    ensures
        r@ == quoted(lead@, value@, tone),
{
    let mut r = Message::new();
    r.plain(lead);
    r.toned(value, tone);
    r.plain("`)");
    r
}

/// A sentence in the default tone.
fn say(sentence: &str) -> (r: Message)
    ensures
        r@ == said(sentence@),
{
    let mut r = Message::new();
    r.plain(sentence);
    r
}

impl PrintableItem for MergeBuildError {
    open spec fn text(&self) -> Seq<Shown> {
        match self {
            MergeBuildError::InputIsEmpty => said("input path(s) wasn't provided"@),
            MergeBuildError::OutputIsEmpty => said("output path wasn't provided"@),
            MergeBuildError::UnparseableDepth(token) => quoted(
                "couldn't parse the `depth` value (`"@,
                token@,
                Tone::BrightCyan,
            ),
            MergeBuildError::UnparseableOrderMode(token) => quoted(
                "couldn't parse the `order_by` value (`"@,
                token@,
                Tone::BrightCyan,
            ),
        }
    }

    fn message(&self) -> (r: Message) {
        match self {
            MergeBuildError::InputIsEmpty => say("input path(s) wasn't provided"),
            MergeBuildError::OutputIsEmpty => say("output path wasn't provided"),
            MergeBuildError::UnparseableDepth(token) => quote(
                "couldn't parse the `depth` value (`",
                token.as_str(),
                Tone::BrightCyan,
            ),
            MergeBuildError::UnparseableOrderMode(token) => quote(
                "couldn't parse the `order_by` value (`",
                token.as_str(),
                Tone::BrightCyan,
            ),
        }
    }
}

impl PrintableItem for MergeCheckError {
    open spec fn text(&self) -> Seq<Shown> {
        match self {
            MergeCheckError::InputIsSingleFile(path) => quoted(
                "single file input isn't allowed (`"@,
                path@,
                Tone::BrightCyan,
            ),
            MergeCheckError::OutputIsDirectory(path) => quoted(
                "output as directory isn't allowed (`"@,
                path@,
                Tone::BrightCyan,
            ),
            MergeCheckError::InputIsDirectoryReference(path) => quoted(
                "directory reference isn't allowed (`"@,
                path@,
                Tone::BrightCyan,
            ),
            MergeCheckError::OutputIsDirectoryReference(path) => quoted(
                "directory reference isn't allowed (`"@,
                path@,
                Tone::BrightCyan,
            ),
            MergeCheckError::InputIsNotPdfFile(path) => quoted(
                "non pdf file argument (`"@,
                path@,
                Tone::BrightCyan,
            ),
            MergeCheckError::OutputIsNotPdfFile(path) => quoted(
                "non pdf file argument (`"@,
                path@,
                Tone::BrightCyan,
            ),
            MergeCheckError::InputRepetitionWithoutFlag(path) => quoted(
                "you passed the same input more than once (`"@,
                path@,
                Tone::BrightCyan,
            ),
            MergeCheckError::OutputAlreadyExists(path) => quoted(
                "output already exists (`"@,
                path@,
                Tone::BrightCyan,
            ),
            MergeCheckError::CouldNotReadOrCheckFilePath(path) => quoted(
                "couldn't read/check file path (`"@,
                path@,
                Tone::BrightCyan,
            ),
            MergeCheckError::ParentOutputWithoutFlag(path) => quoted(
                "output contains parent dir (`"@,
                path@,
                Tone::BrightGreen,
            ),
            MergeCheckError::DepthNotSpecified => said("depth wasn't specified"@),
        }
    }

    fn message(&self) -> (r: Message) {
        match self {
            MergeCheckError::InputIsSingleFile(path) => quote(
                "single file input isn't allowed (`",
                path.as_str(),
                Tone::BrightCyan,
            ),
            MergeCheckError::OutputIsDirectory(path) => quote(
                "output as directory isn't allowed (`",
                path.as_str(),
                Tone::BrightCyan,
            ),
            MergeCheckError::InputIsDirectoryReference(path) => quote(
                "directory reference isn't allowed (`",
                path.as_str(),
                Tone::BrightCyan,
            ),
            MergeCheckError::OutputIsDirectoryReference(path) => quote(
                "directory reference isn't allowed (`",
                path.as_str(),
                Tone::BrightCyan,
            ),
            MergeCheckError::InputIsNotPdfFile(path) => quote(
                "non pdf file argument (`",
                path.as_str(),
                Tone::BrightCyan,
            ),
            MergeCheckError::OutputIsNotPdfFile(path) => quote(
                "non pdf file argument (`",
                path.as_str(),
                Tone::BrightCyan,
            ),
            MergeCheckError::InputRepetitionWithoutFlag(path) => quote(
                "you passed the same input more than once (`",
                path.as_str(),
                Tone::BrightCyan,
            ),
            MergeCheckError::OutputAlreadyExists(path) => quote(
                "output already exists (`",
                path.as_str(),
                Tone::BrightCyan,
            ),
            MergeCheckError::CouldNotReadOrCheckFilePath(path) => quote(
                "couldn't read/check file path (`",
                path.as_str(),
                Tone::BrightCyan,
            ),
            MergeCheckError::ParentOutputWithoutFlag(path) => quote(
                "output contains parent dir (`",
                path.as_str(),
                Tone::BrightGreen,
            ),
            MergeCheckError::DepthNotSpecified => say("depth wasn't specified"),
        }
    }
}

impl PrintableItem for MergeRunError {
    open spec fn text(&self) -> Seq<Shown> {
        match self {
            MergeRunError::CouldNotReadEntry(path) => quoted(
                "failed to read file/dir entry (`"@,
                path@,
                Tone::BrightCyan,
            ),
            MergeRunError::PathRepetitionWithoutFlag(path) => quoted(
                "entry repetition without allowing (`"@,
                path@,
                Tone::BrightCyan,
            ),
            MergeRunError::EntryDoesNotExists(path) => quoted(
                "file/dir entry doesn't exists (`"@,
                path@,
                Tone::BrightCyan,
            ),
            MergeRunError::CouldNotLoadInput(path) => quoted(
                "couldn't load input(s) as PDF file (`"@,
                path@,
                Tone::BrightCyan,
            ),
            MergeRunError::CouldNotSaveTheOutput(path) => quoted(
                "file/dir couldn't be saved (`"@,
                path@,
                Tone::BrightCyan,
            ),
            MergeRunError::RootPageNotFound => said("root page not found"@),
            MergeRunError::CatalogIsNone => said("catalog is none"@),
        }
    }

    fn message(&self) -> (r: Message) {
        match self {
            MergeRunError::CouldNotReadEntry(path) => quote(
                "failed to read file/dir entry (`",
                path.as_str(),
                Tone::BrightCyan,
            ),
            MergeRunError::PathRepetitionWithoutFlag(path) => quote(
                "entry repetition without allowing (`",
                path.as_str(),
                Tone::BrightCyan,
            ),
            MergeRunError::EntryDoesNotExists(path) => quote(
                "file/dir entry doesn't exists (`",
                path.as_str(),
                Tone::BrightCyan,
            ),
            MergeRunError::CouldNotLoadInput(path) => quote(
                "couldn't load input(s) as PDF file (`",
                path.as_str(),
                Tone::BrightCyan,
            ),
            MergeRunError::CouldNotSaveTheOutput(path) => quote(
                "file/dir couldn't be saved (`",
                path.as_str(),
                Tone::BrightCyan,
            ),
            MergeRunError::RootPageNotFound => say("root page not found"),
            MergeRunError::CatalogIsNone => say("catalog is none"),
        }
    }
}

} // verus!

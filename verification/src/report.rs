//! What the program reports when a merge is refused or fails.
use vstd::prelude::*;
use crate::args::MergeArgs;
use crate::errors::{MergeBuildError, MergeCheckError, MergeRunError};
use crate::print::{title_text, Message, PrintableItem, PrintableTag, Printer, Shown};
use crate::tips::{
    could_not_handle_pdf, could_not_handle_pdf_text, could_not_save_pdf, could_not_save_pdf_text,
    depth_flag_usage, depth_flag_usage_text, directory_references, directory_references_text,
    merge_depth, merge_depth_text, merge_input_output, merge_input_output_text,
    non_readable_file_path, non_readable_file_path_text, override_flag, override_flag_text,
    parent_flag_usage, parent_flag_usage_text, repetition_flag, repetition_flag_text,
};

verus! {

/// The commands of the program.
#[derive(Clone, Debug, PartialEq)]
pub enum AppSubcommand {
    /// Merge two or more PDFs into a single one.
    MergeSubcommand(MergeArgs),
}

/// The program: the arguments it was called with.
#[derive(Clone, Debug, PartialEq)]
pub struct App(pub MergeArgs);

/// A message and the stream it goes to.
#[derive(Clone, Debug, PartialEq)]
pub struct Report {
    /// Whether the message goes to the error stream.
    pub on_stderr: bool,
    /// The message.
    pub message: Message,
}

/// The tip that follows a build error.
pub open spec fn build_error_tip(error: MergeBuildError) -> Seq<Shown> {
    match error {
        MergeBuildError::InputIsEmpty => merge_input_output_text(),
        MergeBuildError::OutputIsEmpty => merge_input_output_text(),
        MergeBuildError::UnparseableDepth(_) => merge_depth_text(),
        MergeBuildError::UnparseableOrderMode(_) => Seq::empty(),
    }
}

/// The tip that follows a check error.
pub open spec fn check_error_tip(error: MergeCheckError) -> Seq<Shown> {
    match error {
        MergeCheckError::InputIsSingleFile(_) => merge_input_output_text(),
        MergeCheckError::OutputIsDirectory(_) => merge_input_output_text(),
        MergeCheckError::InputIsNotPdfFile(_) => merge_input_output_text(),
        MergeCheckError::OutputIsNotPdfFile(_) => merge_input_output_text(),
        MergeCheckError::InputIsDirectoryReference(_) => directory_references_text(),
        MergeCheckError::OutputIsDirectoryReference(_) => directory_references_text(),
        MergeCheckError::InputRepetitionWithoutFlag(_) => repetition_flag_text(),
        MergeCheckError::OutputAlreadyExists(_) => override_flag_text(),
        MergeCheckError::CouldNotReadOrCheckFilePath(_) => non_readable_file_path_text(),
        MergeCheckError::ParentOutputWithoutFlag(_) => parent_flag_usage_text(),
        MergeCheckError::DepthNotSpecified => depth_flag_usage_text(),
    }
}

/// The tip that follows a run error, behind its blank line; nothing for an
/// entry that does not exist.
pub open spec fn run_error_tip(error: MergeRunError) -> Seq<Shown> {
    match error {
        MergeRunError::EntryDoesNotExists(_) => Seq::empty(),
        MergeRunError::CouldNotReadEntry(_) => seq![Shown::Break] + non_readable_file_path_text(),
        MergeRunError::PathRepetitionWithoutFlag(_) => seq![Shown::Break] + repetition_flag_text(),
        MergeRunError::CouldNotLoadInput(_) => seq![Shown::Break] + could_not_handle_pdf_text(),
        MergeRunError::RootPageNotFound => seq![Shown::Break] + could_not_handle_pdf_text(),
        MergeRunError::CatalogIsNone => seq![Shown::Break] + could_not_handle_pdf_text(),
        MergeRunError::CouldNotSaveTheOutput(_) => seq![Shown::Break] + could_not_save_pdf_text(),
    }
}

/// The title of an error.
pub open spec fn error_title(text: Seq<Shown>) -> Seq<Shown> {
    title_text(PrintableTag::Error, Some(text))
}

impl App {
    /// The report of a build error: its title, a blank line, and the tip that
    /// fits it. It goes to the error stream.
    pub fn handle_merge_try_from_error(value: MergeBuildError) -> (r: Report)
        ensures
            r.on_stderr,
            r.message@ == error_title(value.text()).push(Shown::Break) + build_error_tip(value),
    {
        let tip = match &value {
            MergeBuildError::InputIsEmpty => merge_input_output(),
            MergeBuildError::OutputIsEmpty => merge_input_output(),
            MergeBuildError::UnparseableDepth(_) => merge_depth(),
            MergeBuildError::UnparseableOrderMode(_) => Message::new(),
        };
        let mut message = Printer::title(PrintableTag::Error, Some(value));
        message.end_line();
        message.extend(tip);
        Report { on_stderr: true, message }
    }

    /// The report of a check error: its title, a blank line, and the tip that
    /// fits it. It goes to the error stream.
    pub fn handle_merge_check_error(value: MergeCheckError) -> (r: Report)
        ensures
            r.on_stderr,
            r.message@ == error_title(value.text()).push(Shown::Break) + check_error_tip(value),
    {
        let tip = match &value {
            MergeCheckError::InputIsSingleFile(_) => merge_input_output(),
            MergeCheckError::OutputIsDirectory(_) => merge_input_output(),
            MergeCheckError::InputIsNotPdfFile(_) => merge_input_output(),
            MergeCheckError::OutputIsNotPdfFile(_) => merge_input_output(),
            MergeCheckError::InputIsDirectoryReference(_) => directory_references(),
            MergeCheckError::OutputIsDirectoryReference(_) => directory_references(),
            MergeCheckError::InputRepetitionWithoutFlag(_) => repetition_flag(),
            MergeCheckError::OutputAlreadyExists(_) => override_flag(),
            MergeCheckError::CouldNotReadOrCheckFilePath(_) => non_readable_file_path(),
            MergeCheckError::ParentOutputWithoutFlag(_) => parent_flag_usage(),
            MergeCheckError::DepthNotSpecified => depth_flag_usage(),
        };
        let mut message = Printer::title(PrintableTag::Error, Some(value));
        message.end_line();
        message.extend(tip);
        Report { on_stderr: true, message }
    }

    /// The report of a run error: its title and, unless an entry does not
    /// exist, a blank line and the tip that fits the error. It goes to the
    /// error stream.
    pub fn handle_merge_run_error(value: MergeRunError) -> (r: Report)
        ensures
            r.on_stderr,
            r.message@ == error_title(value.text()) + run_error_tip(value),
    {
        let tip = match &value {
            MergeRunError::EntryDoesNotExists(_) => None,
            MergeRunError::CouldNotReadEntry(_) => Some(non_readable_file_path()),
            MergeRunError::PathRepetitionWithoutFlag(_) => Some(repetition_flag()),
            MergeRunError::CouldNotLoadInput(_) => Some(could_not_handle_pdf()),
            MergeRunError::RootPageNotFound => Some(could_not_handle_pdf()),
            MergeRunError::CatalogIsNone => Some(could_not_handle_pdf()),
            MergeRunError::CouldNotSaveTheOutput(_) => Some(could_not_save_pdf()),
        };
        let mut message = Printer::title(PrintableTag::Error, Some(value));
        let ghost title = message@;
        match tip {
            Some(tip) => {
                message.end_line();
                message.extend(tip);
                assert(message@ == title + (seq![Shown::Break] + tip@));
            },
            None => {
                assert(message@ == title + Seq::<Shown>::empty());
            },
        }
        Report { on_stderr: true, message }
    }
}

} // verus!

//! A run of the program, step by step.
//!
//! The library reads no file and writes none. Where a run needs to know
//! something of the file system, or to change it, the library says so in an
//! `Action`; the caller does it and hands the answer back as an `Event`. A
//! run goes through its stages once, in order, and ends when it has
//! something to tell.
use vstd::prelude::*;
use vstd::string::*;
use lopdf::Bookmark;
use crate::args::AppOutput;
use crate::collect::Entry;
use crate::depth::Depth;
use crate::errors::{MergeBuildError, MergeCheckError, MergeRunError};
use crate::merge::{Merge, PathFacts};
use crate::merger::Source;
use crate::path::{ancestors, ancestors_of, texts};
use crate::print::{title_text, Message, PrintableItem, PrintableTag, Printer, Shown, Tone};
use crate::report::{
    build_error_tip, check_error_tip, error_title, run_error_tip, App, Report,
};
use crate::text::{decimal, decimal_text};
use crate::tips::{help_tip, help_tip_text};

verus! {

/// Where a run stands.
#[derive(Debug, PartialEq)]
pub enum Stage {
    /// The request waits for the facts of its paths.
    Validating(Merge),
    /// The request was found safe and waits for the entries of its inputs.
    Collecting(Merge),
    /// The files to merge are known and wait to be read.
    Loading(Merge, Vec<String>),
    /// The merged document waits to be written.
    Saving(Merge, Vec<String>),
    /// The merged document was written.
    Saved,
    /// The run was given up.
    Failed,
}

/// What the caller found out or did.
#[derive(Debug, PartialEq)]
pub enum Event {
    /// The facts of the paths of the request.
    Facts(PathFacts),
    /// The inputs with what was found at each of them.
    Tree(Vec<Entry>),
    /// The files to merge, read.
    Sources(Vec<Source>),
    /// The file at this path could not be read.
    Unread(String),
    /// The output was written; the seconds that the run took, as text.
    Written(String),
    /// The output could not be written.
    NotWritten,
}

/// What the caller is asked to do.
#[derive(Debug, PartialEq)]
pub enum Action {
    /// Find out the facts of these paths, and answer with `Facts`.
    Inspect {
        /// The inputs.
        inputs: Vec<String>,
        /// The output.
        output: String,
        /// The directories above the output, outermost first.
        ancestors: Vec<String>,
    },
    /// Look at the inputs, list the directories among them down to the depth,
    /// and answer with `Tree`.
    Walk {
        /// The inputs.
        inputs: Vec<String>,
        /// How deep to go.
        depth: Depth,
    },
    /// Read these files, and answer with `Sources`, or with `Unread` for the
    /// first that cannot be read.
    Read {
        /// The files, in the order of the merge.
        paths: Vec<String>,
    },
    /// Write the bytes to the output in place of what it held, and answer
    /// with `Written` or `NotWritten`. Where the output exists, print the
    /// warning first. Where it does not, create the directories above it if
    /// `create_parents` says so, and no directory otherwise.
    Write {
        /// The output.
        output: String,
        /// What to write.
        bytes: Vec<u8>,
        /// Whether missing directories above the output are created.
        create_parents: bool,
        /// What to print where the output exists.
        warning: Message,
    },
    /// Print the report and end the run.
    Tell {
        /// How the run ended.
        output: AppOutput,
        /// What to print.
        report: Report,
    },
}

/// A copy of a list of paths.
pub fn copy_paths(paths: &Vec<String>) -> (r: Vec<String>)
    ensures
        r@ == paths@,
{
    let mut r: Vec<String> = Vec::new();
    let mut i: usize = 0;
    while i < paths.len()
        invariant
            i <= paths@.len(),
            r@ == paths@.take(i as int),
        decreases paths@.len() - i,
    {
        r.push(paths[i].clone());
        assert(paths@.take(i + 1) == paths@.take(i as int).push(paths@[i as int]));
        i += 1;
    }
    assert(paths@.take(i as int) == paths@);
    r
}

/// What is said of a call without arguments.
pub open spec fn no_arguments_text() -> Seq<Shown> {
    error_title(seq![Shown::Text("no arguments provided"@, Tone::Plain)]).push(Shown::Break)
        + help_tip_text()
}

/// What is said of an answer that does not fit the stage.
pub open spec fn unexpected_text() -> Seq<Shown> {
    error_title(seq![Shown::Text("unexpected answer"@, Tone::Plain)])
}

/// The warning for an output that is replaced.
pub open spec fn override_warning_text() -> Seq<Shown> {
    title_text(
        PrintableTag::Warning,
        Some(seq![Shown::Text("overriding an older file with this one"@, Tone::Plain)]),
    )
}

/// The report of a build error.
pub open spec fn build_report_text(error: MergeBuildError) -> Seq<Shown> {
    error_title(error.text()).push(Shown::Break) + build_error_tip(error)
}

/// The report of a check error.
pub open spec fn check_report_text(error: MergeCheckError) -> Seq<Shown> {
    error_title(error.text()).push(Shown::Break) + check_error_tip(error)
}

/// The report of a run error.
pub open spec fn run_report_text(error: MergeRunError) -> Seq<Shown> {
    error_title(error.text()) + run_error_tip(error)
}

/// One line for each merged file.
pub open spec fn file_lines(files: Seq<String>) -> Seq<Shown>
    decreases files.len(),
{
    if files.len() == 0 {
        Seq::empty()
    } else {
        file_lines(files.drop_last()) + seq![
            Shown::Text(" - "@, Tone::Plain),
            Shown::Text(files.last()@, Tone::Cyan),
            Shown::Break,
        ]
    }
}

/// What is said of a merge that was done: how many files were merged, which,
/// into what, and how long it took.
pub open spec fn success_text(files: Seq<String>, output: Seq<char>, seconds: Seq<char>) -> Seq<
    Shown,
> {
    title_text(
        PrintableTag::Done,
        Some(
            seq![
                Shown::Text("merged successfully ("@, Tone::Plain),
                Shown::Text(decimal_text(files.len()), Tone::Cyan),
                Shown::Text(" files)"@, Tone::Plain),
            ],
        ),
    ) + seq![Shown::Text("The files:"@, Tone::Plain), Shown::Break, Shown::Break] + file_lines(
        files,
    ) + seq![
        Shown::Break,
        Shown::Text("was "@, Tone::Plain),
        Shown::Text("successfully"@, Tone::Green),
        Shown::Text(" merged into `"@, Tone::Plain),
        Shown::Text(output, Tone::Cyan),
        Shown::Text("`. (took "@, Tone::Plain),
        Shown::Text(seconds, Tone::Cyan),
        Shown::Text(" second(s))"@, Tone::Plain),
        Shown::Break,
    ]
}

/// The report of a merge that was done.
pub fn success_report(files: &Vec<String>, output: &str, seconds: &str) -> (r: Report)
    ensures
        !r.on_stderr,
        r.message@ == success_text(files@, output@, seconds@),
{
    let mut said = Message::new();
    said.plain("merged successfully (");
    let count = decimal(files.len());
    said.toned(count.as_str(), Tone::Cyan);
    said.plain(" files)");
    let mut message = Printer::title(PrintableTag::Done, Some(said));
    let ghost title = message@;
    message.plain("The files:");
    message.end_line();
    message.end_line();
    let ghost head = message@;
    assert(head == title + seq![
        Shown::Text("The files:"@, Tone::Plain),
        Shown::Break,
        Shown::Break,
    ]);
    let mut i: usize = 0;
    assert(files@.take(0) == Seq::<String>::empty());
    assert(head + file_lines(files@.take(0)) == head);
    while i < files.len()
        invariant
            i <= files@.len(),
            message@ == head + file_lines(files@.take(i as int)),
        decreases files@.len() - i,
    {
        proof {
            assert(files@.take(i + 1).drop_last() == files@.take(i as int));
            assert(files@.take(i + 1).last() == files@[i as int]);
        }
        let ghost before = message@;
        message.plain(" - ");
        message.toned(files[i].as_str(), Tone::Cyan);
        message.end_line();
        assert(message@ == before + seq![
            Shown::Text(" - "@, Tone::Plain),
            Shown::Text(files@[i as int]@, Tone::Cyan),
            Shown::Break,
        ]);
        i += 1;
    }
    assert(files@.take(i as int) == files@);
    let ghost listed = message@;
    message.end_line();
    message.plain("was ");
    message.toned("successfully", Tone::Green);
    message.plain(" merged into `");
    message.toned(output, Tone::Cyan);
    message.plain("`. (took ");
    message.toned(seconds, Tone::Cyan);
    message.plain(" second(s))");
    message.end_line();
    assert(message@ == listed + seq![
        Shown::Break,
        Shown::Text("was "@, Tone::Plain),
        Shown::Text("successfully"@, Tone::Green),
        Shown::Text(" merged into `"@, Tone::Plain),
        Shown::Text(output@, Tone::Cyan),
        Shown::Text("`. (took "@, Tone::Plain),
        Shown::Text(seconds@, Tone::Cyan),
        Shown::Text(" second(s))"@, Tone::Plain),
        Shown::Break,
    ]);
    Report { on_stderr: false, message }
}

/// An error title around a plain sentence, for the error stream.
fn complaint(sentence: &str) -> (r: Report)
    ensures
        r.on_stderr,
        r.message@ == error_title(seq![Shown::Text(sentence@, Tone::Plain)]),
{
    let mut said = Message::new();
    said.plain(sentence);
    Report { on_stderr: true, message: Printer::title(PrintableTag::Error, Some(said)) }
}

/// The run ends in failure and tells `text` on the error stream.
pub open spec fn fails_with(next: Stage, action: Action, text: Seq<Shown>) -> bool {
    &&& next is Failed
    &&& action matches Action::Tell { output, report }
    &&& output == AppOutput::Failure
    &&& report.on_stderr
    &&& report.message@ == text
}

/// How a run starts: a call without arguments and a request that cannot be
/// built end it with their reports; a request that can be built waits for the
/// facts of its paths.
pub open spec fn starts(args: crate::args::MergeArgs, next: Stage, action: Action) -> bool {
    if args.is_blank() {
        fails_with(next, action, no_arguments_text())
    } else {
        match next {
            Stage::Validating(merge) => {
                &&& merge.built_from(args)
                &&& action matches Action::Inspect { inputs, output, ancestors }
                &&& inputs@ == merge.input@
                &&& output == merge.output
                &&& texts(ancestors@) == ancestors_of(merge.output@)
            },
            Stage::Failed => exists|error: MergeBuildError|
                #[trigger] Merge::build_result(args, Err(error)) && fails_with(
                    next,
                    action,
                    build_report_text(error),
                ),
            _ => false,
        }
    }
}

/// What follows the facts: the report of the first check that fails, or the
/// walk over the inputs.
pub open spec fn validated(merge: Merge, facts: PathFacts, next: Stage, action: Action) -> bool {
    match merge.check_outcome(facts) {
        Err(error) => fails_with(next, action, check_report_text(error)),
        Ok(_) => {
            &&& next == Stage::Collecting(merge)
            &&& action matches Action::Walk { inputs, depth }
            &&& inputs@ == merge.input@
            &&& depth == merge.depth
        },
    }
}

/// What follows the walk: the report of its failure, or the reading of the
/// files it found.
pub open spec fn queued(merge: Merge, tree: Seq<Entry>, next: Stage, action: Action) -> bool {
    match merge.queue_outcome(tree) {
        Err(error) => fails_with(next, action, run_report_text(error)),
        Ok(found) => {
            &&& next matches Stage::Loading(same, queue)
            &&& same == merge
            &&& queue@ == found
            &&& action matches Action::Read { paths }
            &&& paths@ == found
        },
    }
}

/// What follows the reading: the report of a merge that fails, or the
/// writing of the merged document, for what running the request on the
/// sources may give. The directories above the output are created only where
/// the request allows it.
pub open spec fn loaded(
    merge: Merge,
    queue: Vec<String>,
    sources: Seq<Source>,
    style: Bookmark,
    next: Stage,
    action: Action,
) -> bool {
    exists|r: Result<Vec<u8>, MergeRunError>| #[trigger]
        merge.run_result(sources, style, r) && match r {
            Err(error) => fails_with(next, action, run_report_text(error)),
            Ok(content) => {
                &&& next == Stage::Saving(merge, queue)
                &&& action matches Action::Write { output, bytes, create_parents, warning }
                &&& output == merge.output
                &&& bytes == content
                &&& create_parents == merge.parent
                &&& warning@ == override_warning_text()
            },
        }
}

/// What follows the writing: the report of the merge that was done.
pub open spec fn saved(
    merge: Merge,
    queue: Vec<String>,
    seconds: String,
    next: Stage,
    action: Action,
) -> bool {
    &&& next is Saved
    &&& action matches Action::Tell { output, report }
    &&& output == AppOutput::Success
    &&& !report.on_stderr
    &&& report.message@ == success_text(queue@, merge.output@, seconds@)
}

/// What a stage makes of an event. Every stage takes the answer to what it
/// asked, and goes on to the next stage or fails; any other event fails the
/// run.
pub open spec fn steps(stage: Stage, event: Event, style: Bookmark, next: Stage, action: Action) -> bool {
    match stage {
        Stage::Validating(merge) => match event {
            Event::Facts(facts) => if merge.described_by(facts) {
                validated(merge, facts, next, action)
            } else {
                fails_with(next, action, unexpected_text())
            },
            _ => fails_with(next, action, unexpected_text()),
        },
        Stage::Collecting(merge) => match event {
            Event::Tree(tree) => queued(merge, tree@, next, action),
            _ => fails_with(next, action, unexpected_text()),
        },
        Stage::Loading(merge, queue) => match event {
            Event::Sources(sources) => loaded(merge, queue, sources@, style, next, action),
            Event::Unread(path) => fails_with(
                next,
                action,
                run_report_text(MergeRunError::CouldNotLoadInput(path)),
            ),
            _ => fails_with(next, action, unexpected_text()),
        },
        Stage::Saving(merge, queue) => match event {
            Event::Written(seconds) => saved(merge, queue, seconds, next, action),
            Event::NotWritten => fails_with(
                next,
                action,
                run_report_text(MergeRunError::CouldNotSaveTheOutput(merge.output)),
            ),
            _ => fails_with(next, action, unexpected_text()),
        },
        Stage::Saved => fails_with(next, action, unexpected_text()),
        Stage::Failed => fails_with(next, action, unexpected_text()),
    }
}

/// The end of a run that failed.
fn fail(report: Report) -> (r: (Stage, Action))
    requires
        report.on_stderr,
    ensures
        fails_with(r.0, r.1, report.message@),
{
    (Stage::Failed, Action::Tell { output: AppOutput::Failure, report })
}

impl App {
    /// Starts a run: builds the request from the arguments and asks for the
    /// facts of its paths, or ends the run with the report of what is wrong
    /// with the arguments.
    pub fn run_pdmers(self) -> (r: (Stage, Action))
        ensures
            starts(self.0, r.0, r.1),
    {
        let args = self.0;
        if args.is_empty_call() {
            let mut report = complaint("no arguments provided");
            report.message.end_line();
            report.message.extend(help_tip());
            return fail(report);
        }
        let ghost asked = args;
        match Merge::try_from(args) {
            Ok(merge) => {
                let inputs = copy_paths(&merge.input);
                let output = merge.output.clone();
                let above = ancestors(merge.output.as_str());
                (Stage::Validating(merge), Action::Inspect { inputs, output, ancestors: above })
            },
            Err(error) => {
                let ghost found = error;
                let r = fail(App::handle_merge_try_from_error(error));
                assert(Merge::build_result(asked, Err(found)));
                r
            },
        }
    }
}

impl Stage {
    /// Takes the answer of the caller and says what comes next.
    pub fn step(self, event: Event, style: &Bookmark) -> (r: (Stage, Action))
        ensures
            steps(self, event, *style, r.0, r.1),
    {
        match self {
            Stage::Validating(merge) => match event {
                Event::Facts(facts) => {
                    if facts.inputs.len() != merge.input.len() {
                        return fail(complaint("unexpected answer"));
                    }
                    match merge.check_item(&facts) {
                        Err(error) => fail(App::handle_merge_check_error(error)),
                        Ok(_) => {
                            let inputs = copy_paths(&merge.input);
                            let depth = merge.depth;
                            (Stage::Collecting(merge), Action::Walk { inputs, depth })
                        },
                    }
                },
                _ => fail(complaint("unexpected answer")),
            },
            Stage::Collecting(merge) => match event {
                Event::Tree(tree) => match merge.queue(&tree) {
                    Err(error) => fail(App::handle_merge_run_error(error)),
                    Ok(queue) => {
                        let paths = copy_paths(&queue);
                        (Stage::Loading(merge, queue), Action::Read { paths })
                    },
                },
                _ => fail(complaint("unexpected answer")),
            },
            Stage::Loading(merge, queue) => match event {
                Event::Sources(sources) => {
                    let ran = merge.run_item(&sources, style);
                    let ghost given = ran;
                    let r = match ran {
                        Err(error) => fail(App::handle_merge_run_error(error)),
                        Ok(bytes) => {
                            let output = merge.output.clone();
                            let create_parents = merge.parent;
                            let mut said = Message::new();
                            said.plain("overriding an older file with this one");
                            let warning = Printer::title(PrintableTag::Warning, Some(said));
                            (
                                Stage::Saving(merge, queue),
                                Action::Write { output, bytes, create_parents, warning },
                            )
                        },
                    };
                    assert(merge.run_result(sources@, *style, given));
                    r
                },
                Event::Unread(path) => fail(
                    App::handle_merge_run_error(MergeRunError::CouldNotLoadInput(path)),
                ),
                _ => fail(complaint("unexpected answer")),
            },
            Stage::Saving(merge, queue) => match event {
                Event::Written(seconds) => {
                    let report = success_report(&queue, merge.output.as_str(), seconds.as_str());
                    (Stage::Saved, Action::Tell { output: AppOutput::Success, report })
                },
                Event::NotWritten => fail(
                    App::handle_merge_run_error(
                        MergeRunError::CouldNotSaveTheOutput(merge.output.clone()),
                    ),
                ),
                _ => fail(complaint("unexpected answer")),
            },
            Stage::Saved => fail(complaint("unexpected answer")),
            Stage::Failed => fail(complaint("unexpected answer")),
        }
    }
}

} // verus!

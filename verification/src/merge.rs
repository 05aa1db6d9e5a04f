//! A merge request: how it is built from the arguments, and the checks that
//! decide whether it may run.
//!
//! The checks read the file system only through `PathFacts`: what the caller
//! found out about the paths of the request before it asked.
use vstd::prelude::*;
use vstd::string::*;
use crate::args::MergeArgs;
use crate::depth::{depth_of, Depth};
use lopdf::Bookmark;
use crate::collect::{collected, get_pdf_paths, Entry};
use crate::errors::{MergeBuildError, MergeCheckError, MergeRunError};
use crate::merger::{
    decode_sources, decoded_from, merge_decoded, merged, save_bytes, written, Decoded, Source,
};
use crate::order_mode::{order_of, order_token, OrderMode};
use crate::path::{
    contains_parent_reference, has_foreign_extension, has_parent_reference, is_foreign_file_name,
    normalize_path_buf, normalized,
};
use crate::text::{trim_of, trimmed};

verus! {

/// A merge request.
#[derive(Clone, Debug, PartialEq)]
pub struct Merge {
    /// The inputs, each in normal form: files and directories.
    pub input: Vec<String>,
    /// Where the merged document goes.
    pub output: String,
    /// Whether an existing output may be replaced.
    pub ovrrd: bool,
    /// Whether a path may be merged twice.
    pub repetition: bool,
    /// How deep directories are searched.
    pub depth: Depth,
    /// Whether missing directories above the output are created.
    pub parent: bool,
    /// The order of the sources.
    pub order: OrderMode,
}

/// What is known of one input path.
#[derive(Clone, Copy, Debug, PartialEq, Eq)]
pub struct InputFacts {
    /// Whether the path is a regular file.
    pub is_file: bool,
    /// Whether the path is a directory.
    pub is_dir: bool,
    /// Whether the path exists; nothing where that could not be found out.
    pub exists: Option<bool>,
}

/// What is known of the paths of a request.
#[derive(Clone, Debug, PartialEq)]
pub struct PathFacts {
    /// The facts of each input, in the order of the inputs.
    pub inputs: Vec<InputFacts>,
    /// Whether the output path is a directory.
    pub output_is_dir: bool,
    /// For each directory above the output, outermost first, whether it exists.
    pub ancestors_exist: Vec<bool>,
    /// Whether the output exists; nothing where that could not be found out.
    pub output_exists: Option<bool>,
}

/// The depth that the arguments ask for, if they ask for one that can be read.
pub open spec fn depth_asked(depth: Option<String>) -> Option<Depth> {
    match depth {
        None => Some(Depth::NotSpecified),
        Some(token) => depth_of(trim_of(token@)),
    }
}

/// The order that the arguments ask for, if they ask for one that can be read.
pub open spec fn order_asked(order_by: Option<String>) -> Option<OrderMode> {
    match order_by {
        None => Some(OrderMode::Default),
        Some(token) => order_of(order_token(token@)),
    }
}

/// The first input with a `..` component.
pub open spec fn first_parent_reference(paths: Seq<String>) -> Option<int>
    decreases paths.len(),
{
    if paths.len() == 0 {
        None
    } else {
        match first_parent_reference(paths.drop_last()) {
            Some(i) => Some(i),
            None => if has_parent_reference(paths.last()@) {
                Some(paths.len() - 1)
            } else {
                None
            },
        }
    }
}

/// Whether an input is a file that cannot be a PDF: its existence could not be
/// confirmed, or it has an extension other than `pdf`.
pub open spec fn is_foreign_file(path: String, facts: InputFacts) -> bool {
    facts.is_file && (facts.exists.is_none() || has_foreign_extension(path@))
}

/// The first of the first `n` inputs that is a file that cannot be a PDF.
pub open spec fn first_foreign_file(paths: Seq<String>, facts: Seq<InputFacts>, n: int) -> Option<int>
    decreases n,
{
    if n <= 0 {
        None
    } else {
        match first_foreign_file(paths, facts, n - 1) {
            Some(i) => Some(i),
            None => if is_foreign_file(paths[n - 1], facts[n - 1]) {
                Some(n - 1)
            } else {
                None
            },
        }
    }
}

/// Whether one of the inputs is a directory.
pub open spec fn any_directory(facts: Seq<InputFacts>) -> bool {
    exists|i: int| 0 <= i < facts.len() && (#[trigger] facts[i]).is_dir
}

/// Whether `text` is the text of one of `paths`.
pub open spec fn occurs(paths: Seq<String>, text: Seq<char>) -> bool {
    exists|i: int| 0 <= i < paths.len() && (#[trigger] paths[i])@ == text
}

/// The last path that was given before already.
pub open spec fn last_repeated(paths: Seq<String>) -> Option<int>
    decreases paths.len(),
{
    if paths.len() == 0 {
        None
    } else if occurs(paths.drop_last(), paths.last()@) {
        Some(paths.len() - 1)
    } else {
        last_repeated(paths.drop_last())
    }
}

/// The first path that was given before already.
pub open spec fn first_repeated(paths: Seq<String>) -> Option<int>
    decreases paths.len(),
{
    if paths.len() == 0 {
        None
    } else {
        match first_repeated(paths.drop_last()) {
            Some(i) => Some(i),
            None => if occurs(paths.drop_last(), paths.last()@) {
                Some(paths.len() - 1)
            } else {
                None
            },
        }
    }
}

/// Whether every flag is set.
pub open spec fn all_set(flags: Seq<bool>) -> bool {
    forall|i: int| 0 <= i < flags.len() ==> #[trigger] flags[i]
}

impl Merge {
    /// Whether the request is what the arguments ask for: at least one input,
    /// every input in normal form, the output as given, the flags, the depth
    /// and the order.
    pub open spec fn built_from(&self, args: MergeArgs) -> bool {
        &&& args.input@.len() > 0
        &&& self.input@.len() == args.input@.len()
        &&& forall|i: int|
            0 <= i < self.input@.len() ==> (#[trigger] self.input@[i])@ == normalized(
                args.input@[i]@,
            )
        &&& args.output == Some(self.output)
        &&& self.ovrrd == args.override_output
        &&& self.repetition == args.allow_repetition
        &&& depth_asked(args.depth) == Some(self.depth)
        &&& self.parent == args.parent
        &&& order_asked(args.order_by) == Some(self.order)
    }

    /// Whether `r` is what building a request from the arguments gives: the
    /// request that they ask for, or the first of these failures: no input,
    /// no output, a depth that is neither `*` nor a positive number, an order
    /// that is not known. A token that is refused is given back as it was
    /// read.
    pub open spec fn build_result(args: MergeArgs, r: Result<Merge, MergeBuildError>) -> bool {
        match r {
            Ok(merge) => merge.built_from(args),
            Err(MergeBuildError::InputIsEmpty) => args.input@.len() == 0,
            Err(MergeBuildError::OutputIsEmpty) => args.input@.len() > 0 && args.output.is_none(),
            Err(MergeBuildError::UnparseableDepth(token)) => {
                &&& args.input@.len() > 0
                &&& args.output.is_some()
                &&& args.depth matches Some(d)
                &&& token@ == trim_of(d@)
                &&& depth_of(trim_of(d@)).is_none()
            },
            Err(MergeBuildError::UnparseableOrderMode(token)) => {
                &&& args.input@.len() > 0
                &&& args.output.is_some()
                &&& depth_asked(args.depth).is_some()
                &&& args.order_by matches Some(o)
                &&& token@ == order_token(o@)
                &&& order_of(order_token(o@)).is_none()
            },
        }
    }

    /// Builds a request from the arguments.
    ///
    /// Refuses, in this order: no input, no output, a depth that is neither
    /// `*` nor a positive number, an order that is not known. The depth and
    /// the order are read without the white space around them.
    pub fn try_from(value: MergeArgs) -> (r: Result<Merge, MergeBuildError>)
        ensures
            Merge::build_result(value, r),
    {
        let MergeArgs { input, output, override_output, allow_repetition, depth, parent, order_by } =
            value;
        if input.len() == 0 {
            return Err(MergeBuildError::InputIsEmpty);
        }
        let mut paths: Vec<String> = Vec::new();
        let mut i: usize = 0;
        while i < input.len()
            invariant
                i <= input@.len(),
                paths@.len() == i,
                forall|j: int| 0 <= j < i ==> (#[trigger] paths@[j])@ == normalized(input@[j]@),
            decreases input@.len() - i,
        {
            paths.push(normalize_path_buf(input[i].as_str()));
            i += 1;
        }
        let output = match output {
            Some(o) => o,
            None => {
                return Err(MergeBuildError::OutputIsEmpty);
            },
        };
        let depth = match depth {
            Some(d) => match Depth::try_from(trimmed(d.as_str())) {
                Ok(found) => found,
                Err(e) => {
                    return Err(e);
                },
            },
            None => Depth::NotSpecified,
        };
        let order = match OrderMode::try_from(order_by) {
            Ok(found) => found,
            Err(e) => {
                return Err(e);
            },
        };
        Ok(
            Merge {
                input: paths,
                output,
                ovrrd: override_output,
                repetition: allow_repetition,
                depth,
                parent,
                order,
            },
        )
    }

    /// Whether the facts speak of this request: one for each input.
    pub open spec fn described_by(&self, facts: PathFacts) -> bool {
        facts.inputs@.len() == self.input@.len()
    }

    /// What the checks say of a request. They are made in this order, and the
    /// first that fails decides:
    /// a single input that is a file; an input, then the output, with a
    /// `..` component; an input file that cannot be a PDF; a directory among
    /// the inputs without a depth; an output that is a directory, or has an
    /// extension other than `pdf`; an input given twice without leave; a
    /// missing directory above the output without leave to create it; an
    /// output whose existence is unknown, or that exists without leave to
    /// replace it.
    pub open spec fn check_outcome(&self, facts: PathFacts) -> Result<(), MergeCheckError> {
        if self.input@.len() == 1 && facts.inputs@[0].is_file {
            Err(MergeCheckError::InputIsSingleFile(self.input@[0]))
        } else if first_parent_reference(self.input@).is_some() {
            Err(
                MergeCheckError::InputIsDirectoryReference(
                    self.input@[first_parent_reference(self.input@)->0],
                ),
            )
        } else if has_parent_reference(self.output@) {
            Err(MergeCheckError::OutputIsDirectoryReference(self.output))
        } else if first_foreign_file(self.input@, facts.inputs@, self.input@.len() as int).is_some() {
            Err(
                MergeCheckError::InputIsNotPdfFile(
                    self.input@[first_foreign_file(
                        self.input@,
                        facts.inputs@,
                        self.input@.len() as int,
                    )->0],
                ),
            )
        } else if self.depth == Depth::NotSpecified && any_directory(facts.inputs@) {
            Err(MergeCheckError::DepthNotSpecified)
        } else if facts.output_is_dir {
            Err(MergeCheckError::OutputIsDirectory(self.output))
        } else if has_foreign_extension(self.output@) {
            Err(MergeCheckError::OutputIsNotPdfFile(self.output))
        } else if !self.repetition && last_repeated(self.input@).is_some() {
            Err(MergeCheckError::InputRepetitionWithoutFlag(self.input@[last_repeated(self.input@)->0]))
        } else if !self.parent && !all_set(facts.ancestors_exist@) {
            Err(MergeCheckError::ParentOutputWithoutFlag(self.output))
        } else {
            match facts.output_exists {
                None => Err(MergeCheckError::CouldNotReadOrCheckFilePath(self.output)),
                Some(exists) => if exists && !self.ovrrd {
                    Err(MergeCheckError::OutputAlreadyExists(self.output))
                } else {
                    Ok(())
                },
            }
        }
    }

    /// Decides whether the request may run, from what is known of its paths.
    ///
    /// Nothing is read and nothing is changed: the answer depends on the
    /// request and the facts alone.
    pub fn check_item(&self, facts: &PathFacts) -> (r: Result<(), MergeCheckError>)
        requires
            self.described_by(*facts),
        ensures
            r == self.check_outcome(*facts),
    {
        if self.input.len() == 1 && facts.inputs[0].is_file {
            return Err(MergeCheckError::InputIsSingleFile(self.input[0].clone()));
        }
        match find_parent_reference(&self.input) {
            Some(i) => {
                return Err(MergeCheckError::InputIsDirectoryReference(self.input[i].clone()));
            },
            None => {},
        }
        if contains_parent_reference(self.output.as_str()) {
            return Err(MergeCheckError::OutputIsDirectoryReference(self.output.clone()));
        }
        match find_foreign_file(&self.input, &facts.inputs) {
            Some(i) => {
                return Err(MergeCheckError::InputIsNotPdfFile(self.input[i].clone()));
            },
            None => {},
        }
        if matches!(self.depth, Depth::NotSpecified) && holds_directory(&facts.inputs) {
            return Err(MergeCheckError::DepthNotSpecified);
        }
        if facts.output_is_dir {
            return Err(MergeCheckError::OutputIsDirectory(self.output.clone()));
        }
        if is_foreign_file_name(self.output.as_str()) {
            return Err(MergeCheckError::OutputIsNotPdfFile(self.output.clone()));
        }
        if !self.repetition {
            match find_last_repeated(&self.input) {
                Some(i) => {
                    return Err(MergeCheckError::InputRepetitionWithoutFlag(self.input[i].clone()));
                },
                None => {},
            }
        }
        if !self.parent && !every_flag_set(&facts.ancestors_exist) {
            return Err(MergeCheckError::ParentOutputWithoutFlag(self.output.clone()));
        }
        match facts.output_exists {
            None => Err(MergeCheckError::CouldNotReadOrCheckFilePath(self.output.clone())),
            Some(exists) => if exists && !self.ovrrd {
                Err(MergeCheckError::OutputAlreadyExists(self.output.clone()))
            } else {
                Ok(())
            },
        }
    }

    /// The sources of the merge, in order: the PDF files that the entries
    /// give at the depth of the request; or the first entry that is missing
    /// or unreadable; or, where repetition is not allowed, the first file
    /// that the list holds a second time.
    pub open spec fn queue_outcome(&self, entries: Seq<Entry>) -> Result<Seq<String>, MergeRunError> {
        match collected(entries, 0, self.depth) {
            Err(e) => Err(e),
            Ok(found) => if !self.repetition && first_repeated(found).is_some() {
                Err(MergeRunError::PathRepetitionWithoutFlag(found[first_repeated(found)->0]))
            } else {
                Ok(found)
            },
        }
    }

    /// Expands the inputs into the list of the files to merge. `entries` are
    /// the inputs with what was found at each of them.
    pub fn queue(&self, entries: &Vec<Entry>) -> (r: Result<Vec<String>, MergeRunError>)
        ensures
            match self.queue_outcome(entries@) {
                Ok(found) => r matches Ok(list) && list@ == found,
                Err(e) => r == Err::<Vec<String>, MergeRunError>(e),
            },
    {
        let found = match get_pdf_paths(entries, 0, &self.depth) {
            Ok(found) => found,
            Err(e) => {
                return Err(e);
            },
        };
        if !self.repetition {
            match find_first_repeated(&found) {
                Some(i) => {
                    return Err(MergeRunError::PathRepetitionWithoutFlag(found[i].clone()));
                },
                None => {},
            }
        }
        Ok(found)
    }

    /// The bytes of the merged document of decoded sources; or why the merge
    /// failed; or, where the document cannot be written, a failure to save
    /// that names the output.
    pub open spec fn run_outcome(&self, decodes: Seq<Decoded>, style: Bookmark) -> Result<
        Seq<u8>,
        MergeRunError,
    > {
        match merged(decodes, style) {
            Err(e) => Err(e),
            Ok(doc) => match written(doc) {
                Some(bytes) => Ok(bytes),
                None => Err(MergeRunError::CouldNotSaveTheOutput(self.output)),
            },
        }
    }

    /// Whether `r` is what running on decoded sources gives.
    pub open spec fn ran(
        &self,
        decodes: Seq<Decoded>,
        style: Bookmark,
        r: Result<Vec<u8>, MergeRunError>,
    ) -> bool {
        match self.run_outcome(decodes, style) {
            Ok(bytes) => r matches Ok(b) && b@ == bytes,
            Err(e) => r == Err::<Vec<u8>, MergeRunError>(e),
        }
    }

    /// Merges decoded sources and encodes the merged document.
    pub fn run_decoded(&self, decodes: Vec<Decoded>, style: &Bookmark) -> (r: Result<
        Vec<u8>,
        MergeRunError,
    >)
        ensures
            self.ran(decodes@, *style, r),
    {
        let doc = match merge_decoded(decodes, style) {
            Ok(doc) => doc,
            Err(e) => {
                return Err(e);
            },
        };
        match save_bytes(doc) {
            Some(bytes) => Ok(bytes),
            None => Err(MergeRunError::CouldNotSaveTheOutput(self.output.clone())),
        }
    }

    /// Whether `r` is what running on the sources may give: what running on
    /// some decoding of them gives.
    pub open spec fn run_result(
        &self,
        sources: Seq<Source>,
        style: Bookmark,
        r: Result<Vec<u8>, MergeRunError>,
    ) -> bool {
        exists|decodes: Seq<Decoded>| #[trigger]
            decoded_from(decodes, sources) && self.ran(decodes, style, r)
    }

    /// Decodes the sources, merges them and encodes the merged document.
    ///
    /// What a source decodes to is for the decoder to say; `run_decoded` says
    /// what becomes of each answer.
    pub fn run_item(&self, sources: &Vec<Source>, style: &Bookmark) -> (r: Result<
        Vec<u8>,
        MergeRunError,
    >)
        ensures
            self.run_result(sources@, *style, r),
    {
        let decodes = decode_sources(sources);
        let ghost given = decodes@;
        let r = self.run_decoded(decodes, style);
        assert(decoded_from(given, sources@) && self.ran(given, *style, r));
        r
    }
}

/// The first path with a `..` component.
fn find_parent_reference(paths: &Vec<String>) -> (r: Option<usize>)
    ensures
        match r {
            Some(i) => first_parent_reference(paths@) == Some(i as int) && i < paths@.len(),
            None => first_parent_reference(paths@).is_none(),
        },
{
    let mut i: usize = 0;
    assert(paths@.take(0) == Seq::<String>::empty());
    while i < paths.len()
        invariant
            i <= paths@.len(),
            first_parent_reference(paths@.take(i as int)).is_none(),
        decreases paths@.len() - i,
    {
        proof {
            assert(paths@.take(i + 1).drop_last() == paths@.take(i as int));
            assert(paths@.take(i + 1).last() == paths@[i as int]);
        }
        if contains_parent_reference(paths[i].as_str()) {
            proof {
                lemma_parent_reference_stays(paths@, i + 1);
            }
            return Some(i);
        }
        i += 1;
    }
    assert(paths@.take(i as int) == paths@);
    None
}

/// A `..` found among the first `n` paths is the first of all paths.
proof fn lemma_parent_reference_stays(paths: Seq<String>, n: int)
    requires
        0 <= n <= paths.len(),
        first_parent_reference(paths.take(n)).is_some(),
    ensures
        first_parent_reference(paths) == first_parent_reference(paths.take(n)),
    decreases paths.len() - n,
{
    if n == paths.len() {
        assert(paths.take(n) == paths);
    } else {
        assert(paths.take(n + 1).drop_last() == paths.take(n));
        lemma_parent_reference_stays(paths, n + 1);
    }
}

/// The first input that is a file that cannot be a PDF.
fn find_foreign_file(paths: &Vec<String>, facts: &Vec<InputFacts>) -> (r: Option<usize>)
    requires
        paths@.len() == facts@.len(),
    ensures
        match r {
            Some(i) => first_foreign_file(paths@, facts@, paths@.len() as int) == Some(i as int)
                && i < paths@.len(),
            None => first_foreign_file(paths@, facts@, paths@.len() as int).is_none(),
        },
{
    let mut i: usize = 0;
    while i < paths.len()
        invariant
            i <= paths@.len(),
            paths@.len() == facts@.len(),
            first_foreign_file(paths@, facts@, i as int).is_none(),
        decreases paths@.len() - i,
    {
        if facts[i].is_file && (facts[i].exists.is_none() || is_foreign_file_name(
            paths[i].as_str(),
        )) {
            proof {
                lemma_foreign_file_stays(paths@, facts@, i + 1, paths@.len() as int);
            }
            return Some(i);
        }
        i += 1;
    }
    None
}

/// A foreign file found among the first `n` inputs is the first of the first
/// `m`, for every `m` from `n` on.
proof fn lemma_foreign_file_stays(paths: Seq<String>, facts: Seq<InputFacts>, n: int, m: int)
    requires
        0 <= n <= m,
        first_foreign_file(paths, facts, n).is_some(),
    ensures
        first_foreign_file(paths, facts, m) == first_foreign_file(paths, facts, n),
    decreases m - n,
{
    if n < m {
        lemma_foreign_file_stays(paths, facts, n, m - 1);
    }
}

/// Whether one of the inputs is a directory.
fn holds_directory(facts: &Vec<InputFacts>) -> (r: bool)
    ensures
        r == any_directory(facts@),
{
    let mut i: usize = 0;
    while i < facts.len()
        invariant
            i <= facts@.len(),
            forall|j: int| 0 <= j < i ==> !(#[trigger] facts@[j]).is_dir,
        decreases facts@.len() - i,
    {
        if facts[i].is_dir {
            return true;
        }
        i += 1;
    }
    false
}

/// Whether every flag is set.
fn every_flag_set(flags: &Vec<bool>) -> (r: bool)
    ensures
        r == all_set(flags@),
{
    let mut i: usize = 0;
    while i < flags.len()
        invariant
            i <= flags@.len(),
            forall|j: int| 0 <= j < i ==> #[trigger] flags@[j],
        decreases flags@.len() - i,
    {
        if !flags[i] {
            return false;
        }
        i += 1;
    }
    true
}

/// Whether `target` is the text of one of the first `end` paths.
pub(crate) fn occurs_before(paths: &Vec<String>, end: usize, target: &String) -> (r: bool)
    requires
        end <= paths@.len(),
    ensures
        r == occurs(paths@.take(end as int), target@),
{
    let mut i: usize = 0;
    while i < end
        invariant
            i <= end <= paths@.len(),
            forall|j: int| 0 <= j < i ==> (#[trigger] paths@[j])@ != target@,
        decreases end - i,
    {
        if paths[i] == *target {
            assert(paths@.take(end as int)[i as int] == paths@[i as int]);
            return true;
        }
        i += 1;
    }
    assert forall|j: int| 0 <= j < end implies (#[trigger] paths@.take(end as int)[j])@
        != target@ by {
        assert(paths@.take(end as int)[j] == paths@[j]);
    }
    false
}

/// The last path that was given before already.
fn find_last_repeated(paths: &Vec<String>) -> (r: Option<usize>)
    ensures
        match r {
            Some(i) => last_repeated(paths@) == Some(i as int) && i < paths@.len(),
            None => last_repeated(paths@).is_none(),
        },
{
    let mut j: usize = paths.len();
    assert(paths@.take(j as int) == paths@);
    while j > 0
        invariant
            j <= paths@.len(),
            last_repeated(paths@) == last_repeated(paths@.take(j as int)),
        decreases j,
    {
        j -= 1;
        proof {
            assert(paths@.take(j + 1).drop_last() == paths@.take(j as int));
            assert(paths@.take(j + 1).last() == paths@[j as int]);
        }
        if occurs_before(paths, j, &paths[j]) {
            return Some(j);
        }
    }
    assert(paths@.take(0) == Seq::<String>::empty());
    None
}

/// The first path that was given before already.
fn find_first_repeated(paths: &Vec<String>) -> (r: Option<usize>)
    ensures
        match r {
            Some(i) => first_repeated(paths@) == Some(i as int) && i < paths@.len(),
            None => first_repeated(paths@).is_none(),
        },
{
    let mut j: usize = 0;
    assert(paths@.take(0) == Seq::<String>::empty());
    while j < paths.len()
        invariant
            j <= paths@.len(),
            first_repeated(paths@.take(j as int)).is_none(),
        decreases paths@.len() - j,
    {
        proof {
            assert(paths@.take(j + 1).drop_last() == paths@.take(j as int));
            assert(paths@.take(j + 1).last() == paths@[j as int]);
        }
        if occurs_before(paths, j, &paths[j]) {
            proof {
                lemma_repetition_stays(paths@, j + 1);
            }
            return Some(j);
        }
        j += 1;
    }
    assert(paths@.take(j as int) == paths@);
    None
}

/// A repetition found among the first `n` paths is the first of all paths.
proof fn lemma_repetition_stays(paths: Seq<String>, n: int)
    requires
        0 <= n <= paths.len(),
        first_repeated(paths.take(n)).is_some(),
    ensures
        first_repeated(paths) == first_repeated(paths.take(n)),
    decreases paths.len() - n,
{
    if n == paths.len() {
        assert(paths.take(n) == paths);
    } else {
        assert(paths.take(n + 1).drop_last() == paths.take(n));
        lemma_repetition_stays(paths, n + 1);
    }
}

} // verus!

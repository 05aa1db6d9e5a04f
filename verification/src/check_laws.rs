//! What holds of every check of a merge request.
use vstd::prelude::*;
use crate::errors::MergeCheckError;
use crate::merge::{first_parent_reference, last_repeated, occurs, Merge, PathFacts};
use crate::path::has_parent_reference;

verus! {

/// A `..` in one of the paths is found.
proof fn lemma_parent_reference_is_found(paths: Seq<String>, i: int)
    requires
        0 <= i < paths.len(),
        has_parent_reference(paths[i]@),
    ensures
        first_parent_reference(paths) matches Some(k) && 0 <= k <= i && has_parent_reference(
            paths[k]@,
        ),
    decreases paths.len(),
{
    let front = paths.drop_last();
    if i < paths.len() - 1 {
        assert(front[i] == paths[i]);
        lemma_parent_reference_is_found(front, i);
    } else {
        lemma_parent_reference_is_sound(front);
    }
}

/// What is found as the first `..` is a path with a `..`.
proof fn lemma_parent_reference_is_sound(paths: Seq<String>)
    ensures
        first_parent_reference(paths) matches Some(k) ==> 0 <= k < paths.len()
            && has_parent_reference(paths[k]@),
    decreases paths.len(),
{
    if paths.len() > 0 {
        lemma_parent_reference_is_sound(paths.drop_last());
    }
}

/// A path that stands twice in the list is found.
proof fn lemma_repetition_is_found(paths: Seq<String>, i: int, j: int)
    requires
        0 <= i < j < paths.len(),
        paths[i]@ == paths[j]@,
    ensures
        last_repeated(paths).is_some(),
    decreases paths.len(),
{
    let front = paths.drop_last();
    if j < paths.len() - 1 {
        assert(front[i] == paths[i]);
        assert(front[j] == paths[j]);
        if !occurs(front, paths.last()@) {
            lemma_repetition_is_found(front, i, j);
        }
    } else {
        assert(front[i]@ == paths.last()@);
    }
}

/// A single input that is a file is refused as a single file, whatever else
/// holds of the request.
pub proof fn lemma_single_file_is_refused(merge: Merge, facts: PathFacts)
    requires
        merge.described_by(facts),
        merge.input@.len() == 1,
        facts.inputs@[0].is_file,
    ensures
        merge.check_outcome(facts) == Err::<(), MergeCheckError>(
            MergeCheckError::InputIsSingleFile(merge.input@[0]),
        ),
{
}

/// A request with a `..` component in the input `i` is refused for a
/// directory reference in an input, unless its input is a single file.
pub proof fn lemma_input_reference_is_refused(merge: Merge, facts: PathFacts, i: int)
    requires
        merge.described_by(facts),
        !(merge.input@.len() == 1 && facts.inputs@[0].is_file),
        0 <= i < merge.input@.len(),
        has_parent_reference(merge.input@[i]@),
    ensures
        merge.check_outcome(facts) matches Err(MergeCheckError::InputIsDirectoryReference(path))
            && has_parent_reference(path@),
{
    lemma_parent_reference_is_found(merge.input@, i);
}

/// A request with a `..` component in the output and in no input is refused
/// for a directory reference in the output, unless its input is a single file.
pub proof fn lemma_output_reference_is_refused(merge: Merge, facts: PathFacts)
    requires
        merge.described_by(facts),
        !(merge.input@.len() == 1 && facts.inputs@[0].is_file),
        forall|i: int| 0 <= i < merge.input@.len() ==> !has_parent_reference(merge.input@[i]@),
        has_parent_reference(merge.output@),
    ensures
        merge.check_outcome(facts) == Err::<(), MergeCheckError>(
            MergeCheckError::OutputIsDirectoryReference(merge.output),
        ),
{
    lemma_parent_reference_is_sound(merge.input@);
}

/// The same request with leave to repeat inputs.
pub open spec fn with_repetition(merge: Merge) -> Merge {
    Merge { repetition: true, ..merge }
}

/// The same request with leave to replace the output.
pub open spec fn with_override(merge: Merge) -> Merge {
    Merge { ovrrd: true, ..merge }
}

/// A request that gives an input twice without leave is refused; it is refused
/// for the repetition where the leave is all it lacks. With the leave, no
/// request is refused for a repetition.
pub proof fn lemma_repetition_needs_leave(merge: Merge, facts: PathFacts, i: int, j: int)
    requires
        merge.described_by(facts),
        0 <= i < j < merge.input@.len(),
        merge.input@[i]@ == merge.input@[j]@,
    ensures
        !merge.repetition ==> merge.check_outcome(facts) is Err,
        !merge.repetition && with_repetition(merge).check_outcome(facts) is Ok
            ==> merge.check_outcome(facts) matches Err(
            MergeCheckError::InputRepetitionWithoutFlag(_),
        ),
        !(with_repetition(merge).check_outcome(facts) matches Err(
            MergeCheckError::InputRepetitionWithoutFlag(_),
        )),
{
    lemma_repetition_is_found(merge.input@, i, j);
}

/// A request whose output exists is refused without leave to replace it; it is
/// refused for the existing output where the leave is all it lacks. With the
/// leave, no request is refused for an existing output.
pub proof fn lemma_override_needs_leave(merge: Merge, facts: PathFacts)
    requires
        merge.described_by(facts),
        facts.output_exists == Some(true),
    ensures
        !merge.ovrrd ==> merge.check_outcome(facts) is Err,
        !merge.ovrrd && with_override(merge).check_outcome(facts) is Ok ==> merge.check_outcome(
            facts,
        ) == Err::<(), MergeCheckError>(MergeCheckError::OutputAlreadyExists(merge.output)),
        !(with_override(merge).check_outcome(facts) matches Err(
            MergeCheckError::OutputAlreadyExists(_),
        )),
{
}

} // verus!

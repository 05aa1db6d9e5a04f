//! What the command line hands to the library, and what goes back to it.
use vstd::prelude::*;

verus! {

/// The arguments of a merge, as they were typed.
#[derive(Clone, Debug, PartialEq)]
pub struct MergeArgs {
    /// Files and directories to merge.
    pub input: Vec<String>,
    /// Where the merged document goes.
    pub output: Option<String>,
    /// Whether an existing output may be replaced.
    pub override_output: bool,
    /// Whether a path may be merged twice.
    pub allow_repetition: bool,
    /// How deep directories are searched: `*` or a positive number.
    pub depth: Option<String>,
    /// Whether missing directories above the output are created.
    pub parent: bool,
    /// The order of the sources: `alpha`, `datetime` or `def`.
    pub order_by: Option<String>,
}

impl MergeArgs {
    /// Whether nothing at all was given: no path, no flag, no option.
    pub open spec fn is_blank(&self) -> bool {
        &&& self.input@.len() == 0
        &&& self.output.is_none()
        &&& !self.override_output
        &&& !self.allow_repetition
        &&& self.depth.is_none()
        &&& !self.parent
        &&& self.order_by.is_none()
    }

    /// Tests whether the program was called without any argument.
    pub fn is_empty_call(&self) -> (r: bool)
        ensures
            r == self.is_blank(),
    {
        self.input.len() == 0 && self.output.is_none() && !self.override_output
            && !self.allow_repetition && self.depth.is_none() && !self.parent
            && self.order_by.is_none()
    }
}

impl Default for MergeArgs {
    /// No argument at all.
    fn default() -> (r: Self)
        ensures
            r.is_blank(),
    {
        MergeArgs {
            input: Vec::new(),
            output: None,
            override_output: false,
            allow_repetition: false,
            depth: None,
            parent: false,
            order_by: None,
        }
    }
}

/// How a run of the program ended.
#[derive(Clone, Copy, Debug, PartialEq, Eq, Structural)]
pub enum AppOutput {
    /// The merge was done.
    Success,
    /// The merge was refused or failed.
    Failure,
}

impl AppOutput {
    /// The exit code of the process: 0 for `Success`, 1 for `Failure`.
    pub open spec fn code(self) -> i32 {
        match self {
            AppOutput::Success => 0,
            AppOutput::Failure => 1,
        }
    }
}

impl From<AppOutput> for i32 {
    /// The exit code of the process.
    fn from(value: AppOutput) -> (code: i32) {
        match value {
            AppOutput::Success => 0,
            AppOutput::Failure => 1,
        }
    }
}

impl vstd::std_specs::convert::FromSpecImpl<AppOutput> for i32 {
    open spec fn obeys_from_spec() -> bool {
        true
    }

    open spec fn from_spec(value: AppOutput) -> i32 {
        value.code()
    }
}

} // verus!

//! Input resolution and PDF object-graph merging for `pdmers`.
//!
//! The crate turns a list of file and directory arguments into an ordered list
//! of PDF sources, decides whether the requested merge is safe to run, and
//! combines the object graphs of the sources into one document.
//!
//! - `args`, `depth`, `order_mode`: the arguments and what they are read as.
//! - `path`: paths as text.
//! - `merge`: the merge request, the checks on it, and its run.
//! - `collect`: the depth-bounded walk over files and directories.
//! - `merger`, `pdf`: the merge of the object graphs, and the calls into
//!   `lopdf` that it rests on.
//! - `run`: a run of the program, step by step.
//! - `print`, `messages`, `tips`, `report`: what the program says.
//! - `items`: the traits of what can be checked and run.
//! - `check_laws`, `merge_laws`: what holds of every check and every merge.
//!
//! The library does no input or output. What it has to know of the file
//! system it is told in plain values, and what it decides it hands back.
pub mod args;
pub mod check_laws;
pub mod collect;
pub mod depth;
pub mod errors;
pub mod items;
pub mod merge;
pub mod merge_laws;
pub mod merger;
pub mod messages;
pub mod order_mode;
pub mod path;
pub mod pdf;
pub mod print;
pub mod report;
pub mod run;
pub mod text;
pub mod tips;

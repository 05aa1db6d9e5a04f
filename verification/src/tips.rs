//! The tips that follow an error message.
//!
//! Each tip is a short text of a few lines, some words of it in a tone.
use vstd::prelude::*;
use crate::print::{Message, Shown, Tone};

verus! {

/// What the input and the output of a merge must be.
pub open spec fn merge_input_output_text() -> Seq<Shown> {
    seq![
        Shown::Text("Input should be at least 1 directory path or 2 pdf file paths."@, Tone::Plain),
        Shown::Break,
        Shown::Text("Output must be a single pdf file path."@, Tone::Plain),
        Shown::Break,
        Shown::Break,
        Shown::Text("ie"@, Tone::Green),
        Shown::Text(": `"@, Tone::Plain),
        Shown::Text("pdmers -i integrals.pdf derivatives.pdf -o math.pdf"@, Tone::Cyan),
        Shown::Text("`"@, Tone::Plain),
        Shown::Break,
    ]
}

/// What the input and the output of a merge must be.
pub fn merge_input_output() -> (r: Message)
    ensures
        r@ == merge_input_output_text(),
{
    let mut r = Message::new();
    r.plain("Input should be at least 1 directory path or 2 pdf file paths.");
    r.end_line();
    r.plain("Output must be a single pdf file path.");
    r.end_line();
    r.end_line();
    r.toned("ie", Tone::Green);
    r.plain(": `");
    r.toned("pdmers -i integrals.pdf derivatives.pdf -o math.pdf", Tone::Cyan);
    r.plain("`");
    r.end_line();
    r
}

/// What the depth option takes.
pub open spec fn merge_depth_text() -> Seq<Shown> {
    seq![
        Shown::Text("The `"@, Tone::Plain),
        Shown::Text("--depth"@, Tone::Green),
        Shown::Text("` flag must always be preceded with a positive number"@, Tone::Plain),
        Shown::Break,
        Shown::Text("or the infinity repr (`"@, Tone::Plain),
        Shown::Text("*"@, Tone::Green),
        Shown::Text("`)."@, Tone::Plain),
        Shown::Break,
    ]
}

/// What the depth option takes.
pub fn merge_depth() -> (r: Message)
    ensures
        r@ == merge_depth_text(),
{
    let mut r = Message::new();
    r.plain("The `");
    r.toned("--depth", Tone::Green);
    r.plain("` flag must always be preceded with a positive number");
    r.end_line();
    r.plain("or the infinity repr (`");
    r.toned("*", Tone::Green);
    r.plain("`).");
    r.end_line();
    r
}

/// Where to find help, for a call without arguments.
pub open spec fn help_tip_text() -> Seq<Shown> {
    seq![
        Shown::Text("Try using `"@, Tone::Plain),
        Shown::Text("pdmers --help"@, Tone::Green),
        Shown::Text("` to get usage tips!"@, Tone::Plain),
        Shown::Break,
    ]
}

/// Where to find help, for a call without arguments.
pub fn help_tip() -> (r: Message)
    ensures
        r@ == help_tip_text(),
{
    let mut r = Message::new();
    r.plain("Try using `");
    r.toned("pdmers --help", Tone::Green);
    r.plain("` to get usage tips!");
    r.end_line();
    r
}

/// Why directory references are refused.
pub open spec fn directory_references_text() -> Seq<Shown> {
    seq![
        Shown::Text("By default, directory references "@, Tone::Plain),
        Shown::Text("aren't allowed"@, Tone::Red),
        Shown::Text(" (this avoid path"@, Tone::Plain),
        Shown::Break,
        Shown::Text("exploit and infinity directory traversal)."@, Tone::Plain),
        Shown::Break,
        Shown::Break,
        Shown::Text("You should avoid '"@, Tone::Plain),
        Shown::Text("."@, Tone::Cyan),
        Shown::Text("' for current path. Just use the dir/file"@, Tone::Plain),
        Shown::Break,
        Shown::Text("name instead."@, Tone::Plain),
        Shown::Break,
        Shown::Break,
        Shown::Text("ie"@, Tone::Green),
        Shown::Text(": if you want to merge all PDFs of curdir, move they"@, Tone::Plain),
        Shown::Break,
        Shown::Text("    to a new directory and then use this dir as "@, Tone::Plain),
        Shown::Text("input"@, Tone::Cyan),
        Shown::Text("."@, Tone::Plain),
        Shown::Break,
    ]
}

/// Why directory references are refused.
pub fn directory_references() -> (r: Message)
    ensures
        r@ == directory_references_text(),
{
    let mut r = Message::new();
    r.plain("By default, directory references ");
    r.toned("aren't allowed", Tone::Red);
    r.plain(" (this avoid path");
    r.end_line();
    r.plain("exploit and infinity directory traversal).");
    r.end_line();
    r.end_line();
    r.plain("You should avoid '");
    r.toned(".", Tone::Cyan);
    r.plain("' for current path. Just use the dir/file");
    r.end_line();
    r.plain("name instead.");
    r.end_line();
    r.end_line();
    r.toned("ie", Tone::Green);
    r.plain(": if you want to merge all PDFs of curdir, move they");
    r.end_line();
    r.plain("    to a new directory and then use this dir as ");
    r.toned("input", Tone::Cyan);
    r.plain(".");
    r.end_line();
    r
}

/// How to allow a path to be merged twice.
pub open spec fn repetition_flag_text() -> Seq<Shown> {
    seq![
        Shown::Text("This prevents duplicates content within the output"@, Tone::Plain),
        Shown::Break,
        Shown::Text("file (works both for "@, Tone::Plain),
        Shown::Text("input"@, Tone::Cyan),
        Shown::Text(" and "@, Tone::Plain),
        Shown::Text("file"@, Tone::Cyan),
        Shown::Text(" paths)."@, Tone::Plain),
        Shown::Break,
        Shown::Break,
        Shown::Text("If you're sure about what you're doing, use the"@, Tone::Plain),
        Shown::Break,
        Shown::Text("`"@, Tone::Plain),
        Shown::Text("--allow-repetition"@, Tone::Green),
        Shown::Text("` flag."@, Tone::Plain),
        Shown::Break,
    ]
}

/// How to allow a path to be merged twice.
pub fn repetition_flag() -> (r: Message)
    ensures
        r@ == repetition_flag_text(),
{
    let mut r = Message::new();
    r.plain("This prevents duplicates content within the output");
    r.end_line();
    r.plain("file (works both for ");
    r.toned("input", Tone::Cyan);
    r.plain(" and ");
    r.toned("file", Tone::Cyan);
    r.plain(" paths).");
    r.end_line();
    r.end_line();
    r.plain("If you're sure about what you're doing, use the");
    r.end_line();
    r.plain("`");
    r.toned("--allow-repetition", Tone::Green);
    r.plain("` flag.");
    r.end_line();
    r
}

/// How to allow the output to be replaced.
pub open spec fn override_flag_text() -> Seq<Shown> {
    seq![
        Shown::Text("This prevents from accidentaly override a pdf file."@, Tone::Plain),
        Shown::Break,
        Shown::Break,
        Shown::Text("If you're sure about what you're doing, use the"@, Tone::Plain),
        Shown::Break,
        Shown::Text("`"@, Tone::Plain),
        Shown::Text("--override"@, Tone::Green),
        Shown::Text("` flag."@, Tone::Plain),
        Shown::Break,
    ]
}

/// How to allow the output to be replaced.
pub fn override_flag() -> (r: Message)
    ensures
        r@ == override_flag_text(),
{
    let mut r = Message::new();
    r.plain("This prevents from accidentaly override a pdf file.");
    r.end_line();
    r.end_line();
    r.plain("If you're sure about what you're doing, use the");
    r.end_line();
    r.plain("`");
    r.toned("--override", Tone::Green);
    r.plain("` flag.");
    r.end_line();
    r
}

/// Why a path may be unreadable.
pub open spec fn non_readable_file_path_text() -> Seq<Shown> {
    seq![
        Shown::Text("This occurs when the program fails to read a file/dir"@, Tone::Plain),
        Shown::Break,
        Shown::Text("path due to "@, Tone::Plain),
        Shown::Text("timeout"@, Tone::Red),
        Shown::Text(" or "@, Tone::Plain),
        Shown::Text("privileges"@, Tone::Red),
        Shown::Text(" reasons."@, Tone::Plain),
        Shown::Break,
    ]
}

/// Why a path may be unreadable.
pub fn non_readable_file_path() -> (r: Message)
    ensures
        r@ == non_readable_file_path_text(),
{
    let mut r = Message::new();
    r.plain("This occurs when the program fails to read a file/dir");
    r.end_line();
    r.plain("path due to ");
    r.toned("timeout", Tone::Red);
    r.plain(" or ");
    r.toned("privileges", Tone::Red);
    r.plain(" reasons.");
    r.end_line();
    r
}

/// How to have the directories above the output created.
pub open spec fn parent_flag_usage_text() -> Seq<Shown> {
    seq![
        Shown::Text("If the directory path to the output file doesn't exists,"@, Tone::Plain),
        Shown::Break,
        Shown::Text("this fail will occur."@, Tone::Plain),
        Shown::Break,
        Shown::Break,
        Shown::Text("If you're sure about what you're doing, use"@, Tone::Plain),
        Shown::Break,
        Shown::Text("the `"@, Tone::Plain),
        Shown::Text("--parent"@, Tone::Green),
        Shown::Text("` flag."@, Tone::Plain),
        Shown::Break,
    ]
}

/// How to have the directories above the output created.
pub fn parent_flag_usage() -> (r: Message)
    ensures
        r@ == parent_flag_usage_text(),
{
    let mut r = Message::new();
    r.plain("If the directory path to the output file doesn't exists,");
    r.end_line();
    r.plain("this fail will occur.");
    r.end_line();
    r.end_line();
    r.plain("If you're sure about what you're doing, use");
    r.end_line();
    r.plain("the `");
    r.toned("--parent", Tone::Green);
    r.plain("` flag.");
    r.end_line();
    r
}

/// What may be wrong when a PDF file cannot be handled.
pub open spec fn could_not_handle_pdf_text() -> Seq<Shown> {
    seq![
        Shown::Text("This occurs when PDF file handling fails (within `"@, Tone::Plain),
        Shown::Text("lopdf"@, Tone::Cyan),
        Shown::Text("`"@, Tone::Plain),
        Shown::Break,
        Shown::Text("library)."@, Tone::Plain),
        Shown::Break,
        Shown::Break,
        Shown::Text("The reason can be "@, Tone::Plain),
        Shown::Text("bad formatting"@, Tone::Red),
        Shown::Text(","@, Tone::Plain),
        Shown::Break,
        Shown::Text("not enough"@, Tone::Red),
        Shown::Text(" privileges, "@, Tone::Plain),
        Shown::Text("empty"@, Tone::Red),
        Shown::Text(" file, etc."@, Tone::Plain),
        Shown::Break,
        Shown::Break,
        Shown::Text("If you think this is a bug, consider"@, Tone::Plain),
        Shown::Break,
        Shown::Text("opening a "@, Tone::Plain),
        Shown::Text("pull-request"@, Tone::Cyan),
        Shown::Text(" at "@, Tone::Plain),
        Shown::Text("https://github.com/nasccped/pdmers"@, Tone::Cyan),
        Shown::Break,
    ]
}

/// What may be wrong when a PDF file cannot be handled.
pub fn could_not_handle_pdf() -> (r: Message)
    ensures
        r@ == could_not_handle_pdf_text(),
{
    let mut r = Message::new();
    r.plain("This occurs when PDF file handling fails (within `");
    r.toned("lopdf", Tone::Cyan);
    r.plain("`");
    r.end_line();
    r.plain("library).");
    r.end_line();
    r.end_line();
    r.plain("The reason can be ");
    r.toned("bad formatting", Tone::Red);
    r.plain(",");
    r.end_line();
    r.toned("not enough", Tone::Red);
    r.plain(" privileges, ");
    r.toned("empty", Tone::Red);
    r.plain(" file, etc.");
    r.end_line();
    r.end_line();
    r.plain("If you think this is a bug, consider");
    r.end_line();
    r.plain("opening a ");
    r.toned("pull-request", Tone::Cyan);
    r.plain(" at ");
    r.toned("https://github.com/nasccped/pdmers", Tone::Cyan);
    r.end_line();
    r
}

/// Why a directory needs a depth.
pub open spec fn depth_flag_usage_text() -> Seq<Shown> {
    seq![
        Shown::Text("This occurs when trying to access a directory"@, Tone::Plain),
        Shown::Break,
        Shown::Text("without specifying the `"@, Tone::Plain),
        Shown::Text("--depth"@, Tone::Green),
        Shown::Text("` flag."@, Tone::Plain),
        Shown::Break,
        Shown::Break,
        Shown::Text("The `"@, Tone::Plain),
        Shown::Text("depth"@, Tone::Green),
        Shown::Text("` must always be greater than "@, Tone::Plain),
        Shown::Text("0"@, Tone::Cyan),
        Shown::Text("."@, Tone::Plain),
        Shown::Break,
        Shown::Text("The app will catch PDF files until the "@, Tone::Plain),
        Shown::Text("N"@, Tone::Cyan),
        Shown::Text("th layer."@, Tone::Plain),
        Shown::Break,
    ]
}

/// Why a directory needs a depth.
pub fn depth_flag_usage() -> (r: Message)
    ensures
        r@ == depth_flag_usage_text(),
{
    let mut r = Message::new();
    r.plain("This occurs when trying to access a directory");
    r.end_line();
    r.plain("without specifying the `");
    r.toned("--depth", Tone::Green);
    r.plain("` flag.");
    r.end_line();
    r.end_line();
    r.plain("The `");
    r.toned("depth", Tone::Green);
    r.plain("` must always be greater than ");
    r.toned("0", Tone::Cyan);
    r.plain(".");
    r.end_line();
    r.plain("The app will catch PDF files until the ");
    r.toned("N", Tone::Cyan);
    r.plain("th layer.");
    r.end_line();
    r
}

/// What may be wrong when the output cannot be saved.
pub open spec fn could_not_save_pdf_text() -> Seq<Shown> {
    seq![
        Shown::Text("This usually happens at '"@, Tone::Plain),
        Shown::Text("not enough"@, Tone::Red),
        Shown::Text("' privileges"@, Tone::Plain),
        Shown::Break,
        Shown::Text("environments."@, Tone::Plain),
        Shown::Break,
        Shown::Break,
        Shown::Text("Can also be mem. issue "@, Tone::Plain),
        Shown::Text("._."@, Tone::Cyan),
        Shown::Break,
    ]
}

/// What may be wrong when the output cannot be saved.
pub fn could_not_save_pdf() -> (r: Message)
    ensures
        r@ == could_not_save_pdf_text(),
{
    let mut r = Message::new();
    r.plain("This usually happens at '");
    r.toned("not enough", Tone::Red);
    r.plain("' privileges");
    r.end_line();
    r.plain("environments.");
    r.end_line();
    r.end_line();
    r.plain("Can also be mem. issue ");
    r.toned("._.", Tone::Cyan);
    r.end_line();
    r
}

} // verus!

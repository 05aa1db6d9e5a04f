use lopdf::{Bookmark, Dictionary, Document, Object, Stream};
use pdmers::args::{AppOutput, MergeArgs};
use pdmers::collect::{Entry, EntryState};
use pdmers::depth::Depth;
use pdmers::errors::{MergeCheckError, MergeRunError};
use pdmers::items::{CheckableItem, MergeInput, RunnableItem};
use pdmers::merge::{InputFacts, Merge, PathFacts};
use pdmers::merger::{Decoded, Source};
use pdmers::print::{Message, Piece};
use pdmers::report::App;
use pdmers::run::{copy_paths, success_report, Action, Event, Stage};

fn plain(message: &Message) -> String {
    let mut out = String::new();
    for piece in &message.pieces {
        match piece {
            Piece::Text(text, _) => out.push_str(text),
            Piece::Break => out.push('\n'),
        }
    }
    out
}

fn pdf(path: &str, pages: usize) -> Source {
    let mut doc = Document::with_version("1.5");
    let pages_id = doc.new_object_id();
    let mut kids = Vec::new();
    for i in 0..pages {
        let text = format!("BT ({} {}) Tj ET", path, i);
        let content_id = doc.add_object(Stream::new(Dictionary::new(), text.into_bytes()));
        let mut page = Dictionary::new();
        page.set("Type", Object::Name(b"Page".to_vec()));
        page.set("Parent", pages_id);
        page.set("Contents", content_id);
        kids.push(Object::Reference(doc.add_object(page)));
    }
    let mut tree = Dictionary::new();
    tree.set("Type", Object::Name(b"Pages".to_vec()));
    tree.set("Kids", kids);
    tree.set("Count", pages as i64);
    doc.objects.insert(pages_id, Object::Dictionary(tree));
    let mut catalog = Dictionary::new();
    catalog.set("Type", Object::Name(b"Catalog".to_vec()));
    catalog.set("Pages", pages_id);
    let catalog_id = doc.add_object(catalog);
    doc.trailer.set("Root", catalog_id);
    let mut bytes = Vec::new();
    doc.save_to(&mut bytes).unwrap();
    Source { path: path.to_string(), bytes }
}

fn style() -> Bookmark {
    Bookmark::new(String::new(), [0.0, 0.0, 0.1], 0, (0, 0))
}

fn args(input: &[&str], output: &str) -> MergeArgs {
    MergeArgs {
        input: input.iter().map(|s| s.to_string()).collect(),
        output: Some(output.to_string()),
        override_output: false,
        allow_repetition: false,
        depth: None,
        parent: false,
        order_by: None,
    }
}

fn file(path: &str) -> Entry {
    Entry { path: path.to_string(), state: EntryState::File }
}

const FILE: InputFacts = InputFacts { is_file: true, is_dir: false, exists: Some(true) };
const DIRECTORY: InputFacts = InputFacts { is_file: false, is_dir: true, exists: Some(true) };

fn facts(inputs: &[InputFacts], ancestors: usize) -> PathFacts {
    PathFacts {
        inputs: inputs.to_vec(),
        output_is_dir: false,
        ancestors_exist: vec![true; ancestors],
        output_exists: Some(false),
    }
}

fn told(action: Action) -> (AppOutput, bool, String) {
    match action {
        Action::Tell { output, report } => (output, report.on_stderr, plain(&report.message)),
        other => panic!("the run goes on: {:?}", other),
    }
}

#[test]
fn call_without_arguments_is_told_where_help_is() {
    let (stage, action) = App(MergeArgs::default()).run_pdmers();
    assert_eq!(stage, Stage::Failed);
    assert_eq!(
        told(action),
        (
            AppOutput::Failure,
            true,
            "error: no arguments provided\n\nTry using `pdmers --help` to get usage tips!\n".to_string()
        )
    );
}

#[test]
fn arguments_that_build_no_request_end_the_run() {
    let mut a = args(&["a.pdf", "b.pdf"], "out.pdf");
    a.depth = Some("0".to_string());
    let (stage, action) = App(a).run_pdmers();
    assert_eq!(stage, Stage::Failed);
    let (output, on_stderr, text) = told(action);
    assert_eq!(output, AppOutput::Failure);
    assert!(on_stderr);
    assert!(text.starts_with("error: couldn't parse the `depth` value (`0`)\n\nThe `--depth` flag"));
}

#[test]
fn run_goes_through_its_stages() {
    let mut a = args(&["./a.pdf", "dir/"], "x/y/out.pdf");
    a.depth = Some("1".to_string());
    let (stage, action) = App(a).run_pdmers();
    assert_eq!(
        action,
        Action::Inspect {
            inputs: vec!["a.pdf".to_string(), "dir".to_string()],
            output: "x/y/out.pdf".to_string(),
            ancestors: vec!["x".to_string(), "x/y".to_string()],
        }
    );
    let (stage, action) = stage.step(Event::Facts(facts(&[FILE, DIRECTORY], 2)), &style());
    assert_eq!(
        action,
        Action::Walk {
            inputs: vec!["a.pdf".to_string(), "dir".to_string()],
            depth: Depth::Max(1)
        }
    );
    let tree = vec![
        file("a.pdf"),
        Entry {
            path: "dir".to_string(),
            state: EntryState::Directory(vec![file("dir/b.pdf"), file("dir/notes.txt")]),
        },
    ];
    let (stage, action) = stage.step(Event::Tree(tree), &style());
    assert_eq!(action, Action::Read { paths: vec!["a.pdf".to_string(), "dir/b.pdf".to_string()] });
    let sources = vec![pdf("a.pdf", 2), pdf("dir/b.pdf", 3)];
    let (stage, action) = stage.step(Event::Sources(sources), &style());
    match action {
        Action::Write { output, bytes, create_parents, warning } => {
            assert_eq!(output, "x/y/out.pdf");
            assert!(!create_parents);
            assert_eq!(Document::load_mem(&bytes).unwrap().get_pages().len(), 5);
            assert_eq!(plain(&warning), "warning: overriding an older file with this one\n");
        }
        other => panic!("nothing to write: {:?}", other),
    }
    let (stage, action) = stage.step(Event::Written("0.042".to_string()), &style());
    assert_eq!(stage, Stage::Saved);
    assert_eq!(
        told(action),
        (
            AppOutput::Success,
            false,
            "done: merged successfully (2 files)\n\
             The files:\n\
             \n - a.pdf\n - dir/b.pdf\n\
             \n\
             was successfully merged into `x/y/out.pdf`. (took 0.042 second(s))\n"
                .to_string()
        )
    );
}

#[test]
fn request_that_is_refused_ends_the_run() {
    let (stage, _) = App(args(&["a.pdf"], "out.pdf")).run_pdmers();
    let (stage, action) = stage.step(Event::Facts(facts(&[FILE], 0)), &style());
    assert_eq!(stage, Stage::Failed);
    let (output, on_stderr, text) = told(action);
    assert_eq!(output, AppOutput::Failure);
    assert!(on_stderr);
    assert!(text.starts_with("error: single file input isn't allowed (`a.pdf`)\n\nInput should be"));
}

#[test]
fn walk_that_fails_ends_the_run() {
    let (stage, _) = App(args(&["a.pdf", "b.pdf"], "out.pdf")).run_pdmers();
    let (stage, _) = stage.step(Event::Facts(facts(&[FILE, FILE], 0)), &style());
    let tree = vec![file("a.pdf"), Entry { path: "b.pdf".to_string(), state: EntryState::Missing }];
    let (stage, action) = stage.step(Event::Tree(tree), &style());
    assert_eq!(stage, Stage::Failed);
    assert_eq!(
        told(action),
        (AppOutput::Failure, true, "error: file/dir entry doesn't exists (`b.pdf`)\n".to_string())
    );
}

fn loading() -> Stage {
    let (stage, _) = App(args(&["a.pdf", "b.pdf"], "out.pdf")).run_pdmers();
    let (stage, _) = stage.step(Event::Facts(facts(&[FILE, FILE], 0)), &style());
    let (stage, _) = stage.step(Event::Tree(vec![file("a.pdf"), file("b.pdf")]), &style());
    stage
}

#[test]
fn file_that_cannot_be_read_or_decoded_ends_the_run() {
    let (stage, action) = loading().step(Event::Unread("b.pdf".to_string()), &style());
    assert_eq!(stage, Stage::Failed);
    assert!(told(action).2.starts_with("error: couldn't load input(s) as PDF file (`b.pdf`)\n\nThis occurs"));
    let sources = vec![pdf("a.pdf", 1), Source { path: "b.pdf".to_string(), bytes: vec![1, 2, 3] }];
    let (stage, action) = loading().step(Event::Sources(sources), &style());
    assert_eq!(stage, Stage::Failed);
    assert!(told(action).2.starts_with("error: couldn't load input(s) as PDF file (`b.pdf`)\n\nThis occurs"));
}

#[test]
fn output_that_cannot_be_written_ends_the_run() {
    let sources = vec![pdf("a.pdf", 1), pdf("b.pdf", 1)];
    let (stage, _) = loading().step(Event::Sources(sources), &style());
    let (stage, action) = stage.step(Event::NotWritten, &style());
    assert_eq!(stage, Stage::Failed);
    let (output, on_stderr, text) = told(action);
    assert_eq!(output, AppOutput::Failure);
    assert!(on_stderr);
    assert!(text.starts_with("error: file/dir couldn't be saved (`out.pdf`)\n\nThis usually happens"));
}

#[test]
fn answer_that_does_not_fit_the_stage_ends_the_run() {
    let unexpected = (AppOutput::Failure, true, "error: unexpected answer\n".to_string());
    let (stage, action) = loading().step(Event::NotWritten, &style());
    assert_eq!(stage, Stage::Failed);
    assert_eq!(told(action), unexpected);
    let (stage, _) = App(args(&["a.pdf", "b.pdf"], "out.pdf")).run_pdmers();
    let (stage, action) = stage.step(Event::Facts(facts(&[FILE], 0)), &style());
    assert_eq!(stage, Stage::Failed);
    assert_eq!(told(action), unexpected);
    let (stage, action) = stage.step(Event::Written("1".to_string()), &style());
    assert_eq!(stage, Stage::Failed);
    assert_eq!(told(action), unexpected);
    let (_, action) = Stage::Saved.step(Event::Tree(Vec::new()), &style());
    assert_eq!(told(action), unexpected);
}

#[test]
fn success_is_reported_with_the_files() {
    let none = success_report(&Vec::new(), "o.pdf", "1.000");
    assert!(!none.on_stderr);
    assert_eq!(
        plain(&none.message),
        "done: merged successfully (0 files)\nThe files:\n\n\nwas successfully merged into `o.pdf`. (took 1.000 second(s))\n"
    );
    let many: Vec<String> = (0..12).map(|i| format!("f{}.pdf", i)).collect();
    let text = plain(&success_report(&many, "o.pdf", "1.000").message);
    assert!(text.starts_with("done: merged successfully (12 files)\nThe files:\n\n - f0.pdf\n - f1.pdf\n"));
    assert!(text.contains(" - f11.pdf\n\nwas successfully merged"));
    assert_eq!(copy_paths(&many), many);
}

#[test]
fn merge_runs_on_its_sources() {
    let merge = Merge::try_from(args(&["a.pdf", "b.pdf"], "out.pdf")).unwrap();
    let bytes = merge.run_item(&vec![pdf("a.pdf", 2), pdf("b.pdf", 2)], &style()).unwrap();
    assert_eq!(Document::load_mem(&bytes).unwrap().get_pages().len(), 4);
    let broken = vec![Source { path: "a.pdf".to_string(), bytes: Vec::new() }];
    assert_eq!(
        merge.run_item(&broken, &style()),
        Err(MergeRunError::CouldNotLoadInput("a.pdf".into()))
    );
    let input = MergeInput { sources: vec![pdf("a.pdf", 1), pdf("b.pdf", 1)], style: style() };
    let bytes = RunnableItem::run_item(&merge, &input).unwrap();
    assert_eq!(Document::load_mem(&bytes).unwrap().get_pages().len(), 2);
    assert_eq!(
        CheckableItem::check_item(&merge, &facts(&[FILE, FILE], 0)),
        Ok(())
    );
    let mut exists = facts(&[FILE, FILE], 0);
    exists.output_exists = Some(true);
    assert_eq!(
        CheckableItem::check_item(&merge, &exists),
        Err(MergeCheckError::OutputAlreadyExists("out.pdf".into()))
    );
}

#[test]
fn directories_above_the_output_are_created_only_with_leave() {
    for parent in [false, true] {
        let mut a = args(&["a.pdf", "b.pdf"], "new/out.pdf");
        a.parent = parent;
        let (stage, _) = App(a).run_pdmers();
        let mut world = facts(&[FILE, FILE], 1);
        world.ancestors_exist = vec![parent == false];
        let (stage, _) = stage.step(Event::Facts(world), &style());
        let (stage, _) = stage.step(Event::Tree(vec![file("a.pdf"), file("b.pdf")]), &style());
        let (_, action) = stage.step(Event::Sources(vec![pdf("a.pdf", 1), pdf("b.pdf", 1)]), &style());
        match action {
            Action::Write { create_parents, .. } => assert_eq!(create_parents, parent),
            other => panic!("nothing to write: {:?}", other),
        }
    }
}

#[test]
fn style_brings_its_colour_and_format_and_nothing_else() {
    let mut odd = Bookmark::new("ignored".to_string(), [0.5, 0.25, 0.0], 2, (7, 7));
    odd.children = vec![41, 42];
    odd.id = 9;
    let merge = Merge::try_from(args(&["a.pdf", "b.pdf"], "out.pdf")).unwrap();
    let bytes = merge.run_item(&vec![pdf("a.pdf", 2), pdf("b.pdf", 2)], &odd).unwrap();
    let doc = Document::load_mem(&bytes).unwrap();
    assert_eq!(doc.get_pages().len(), 4);
    let merged = pdmers::merger::gen_pdf(&vec![pdf("a.pdf", 2), pdf("b.pdf", 2)], &odd).unwrap();
    assert_eq!(merged.bookmarks.len(), 1);
    let mark = &merged.bookmark_table[&merged.bookmarks[0]];
    assert_eq!(mark.title, "Page_1");
    assert_eq!(mark.color, [0.5, 0.25, 0.0]);
    assert_eq!(mark.format, 2);
    assert!(mark.children.is_empty());
}

#[test]
fn merge_runs_on_decoded_sources() {
    let merge = Merge::try_from(args(&["a.pdf", "b.pdf"], "out.pdf")).unwrap();
    let decode = |s: Source| Decoded {
        path: s.path.clone(),
        document: Document::load_mem(&s.bytes).ok(),
    };
    let bytes = merge
        .run_decoded(vec![decode(pdf("a.pdf", 2)), decode(pdf("b.pdf", 1))], &style())
        .unwrap();
    assert_eq!(Document::load_mem(&bytes).unwrap().get_pages().len(), 3);
    let missing = vec![decode(pdf("a.pdf", 2)), Decoded { path: "b.pdf".to_string(), document: None }];
    assert_eq!(
        merge.run_decoded(missing, &style()),
        Err(MergeRunError::CouldNotLoadInput("b.pdf".into()))
    );
}

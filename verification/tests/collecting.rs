use pdmers::args::MergeArgs;
use pdmers::collect::{get_pdf_paths, Entry, EntryState};
use pdmers::depth::Depth;
use pdmers::errors::MergeRunError;
use pdmers::merge::Merge;

fn file(path: &str) -> Entry {
    Entry { path: path.to_string(), state: EntryState::File }
}

fn dir(path: &str, children: Vec<Entry>) -> Entry {
    Entry { path: path.to_string(), state: EntryState::Directory(children) }
}

fn entry(path: &str, state: EntryState) -> Entry {
    Entry { path: path.to_string(), state }
}

fn names(list: &[&str]) -> Vec<String> {
    list.iter().map(|s| s.to_string()).collect()
}

fn dir_x() -> Vec<Entry> {
    vec![dir(
        "dirX",
        vec![
            file("dirX/a.pdf"),
            file("dirX/b.pdf"),
            dir("dirX/dirY", vec![file("dirX/dirY/c.pdf")]),
        ],
    )]
}

fn request(input: &[&str], depth: Depth, repetition: bool) -> Merge {
    let args = MergeArgs {
        input: names(input),
        output: Some("out.pdf".to_string()),
        override_output: false,
        allow_repetition: repetition,
        depth: None,
        parent: false,
        order_by: None,
    };
    let mut m = Merge::try_from(args).unwrap();
    m.depth = depth;
    m
}

#[test]
fn depth_one_stops_above_the_inner_directory() {
    assert_eq!(
        get_pdf_paths(&dir_x(), 0, &Depth::Max(1)),
        Ok(names(&["dirX/a.pdf", "dirX/b.pdf"]))
    );
}

#[test]
fn infinite_depth_reaches_every_file() {
    assert_eq!(
        get_pdf_paths(&dir_x(), 0, &Depth::Infinite),
        Ok(names(&["dirX/a.pdf", "dirX/b.pdf", "dirX/dirY/c.pdf"]))
    );
    assert_eq!(
        get_pdf_paths(&dir_x(), 0, &Depth::Max(2)),
        Ok(names(&["dirX/a.pdf", "dirX/b.pdf", "dirX/dirY/c.pdf"]))
    );
}

#[test]
fn walk_turns_back_beyond_the_depth() {
    assert_eq!(get_pdf_paths(&dir_x(), 2, &Depth::Max(1)), Ok(Vec::new()));
    assert_eq!(get_pdf_paths(&dir_x(), 1, &Depth::Max(1)), Ok(Vec::new()));
    assert_eq!(
        get_pdf_paths(&dir_x(), 7, &Depth::Infinite),
        Ok(names(&["dirX/a.pdf", "dirX/b.pdf", "dirX/dirY/c.pdf"]))
    );
    assert_eq!(
        get_pdf_paths(&dir_x(), 7, &Depth::NotSpecified),
        Ok(names(&["dirX/a.pdf", "dirX/b.pdf", "dirX/dirY/c.pdf"]))
    );
    let brim = usize::MAX;
    assert_eq!(
        get_pdf_paths(&dir_x(), brim, &Depth::Max(brim)),
        Ok(names(&["dirX/a.pdf", "dirX/b.pdf", "dirX/dirY/c.pdf"]))
    );
}

#[test]
fn order_of_the_inputs_is_kept() {
    let tree = vec![
        file("z.pdf"),
        dir("b", vec![file("b/2.pdf"), file("b/1.pdf")]),
        file("notes.txt"),
        file("README"),
        file("upper.PDF"),
        entry("socket", EntryState::Other),
        dir("a", vec![dir("a/in", vec![file("a/in/x.pdf")]), file("a/0.pdf")]),
        file("a.pdf"),
    ];
    assert_eq!(
        get_pdf_paths(&tree, 0, &Depth::Infinite),
        Ok(names(&["z.pdf", "b/2.pdf", "b/1.pdf", "a/in/x.pdf", "a/0.pdf", "a.pdf"]))
    );
    assert_eq!(
        get_pdf_paths(&tree, 0, &Depth::Max(1)),
        Ok(names(&["z.pdf", "b/2.pdf", "b/1.pdf", "a/0.pdf", "a.pdf"]))
    );
    assert_eq!(get_pdf_paths(&Vec::new(), 0, &Depth::Infinite), Ok(Vec::new()));
}

#[test]
fn first_bad_entry_ends_the_walk() {
    let tree = vec![
        file("a.pdf"),
        dir("d", vec![file("d/1.pdf"), entry("d/gone", EntryState::Missing)]),
        entry("locked", EntryState::Locked),
    ];
    assert_eq!(
        get_pdf_paths(&tree, 0, &Depth::Infinite),
        Err(MergeRunError::EntryDoesNotExists("d/gone".into()))
    );
    // At depth 0 the directory is not entered, and its listing stays unseen.
    assert_eq!(
        get_pdf_paths(&tree, 0, &Depth::Max(0)),
        Err(MergeRunError::CouldNotReadEntry("locked".into()))
    );
    let tree = vec![entry("what", EntryState::Unknown), entry("gone", EntryState::Missing)];
    assert_eq!(
        get_pdf_paths(&tree, 0, &Depth::NotSpecified),
        Err(MergeRunError::CouldNotReadEntry("what".into()))
    );
    let tree = vec![dir("d", vec![dir("d/e", vec![entry("d/e/f", EntryState::Locked)])])];
    assert_eq!(
        get_pdf_paths(&tree, 0, &Depth::Max(2)),
        Err(MergeRunError::CouldNotReadEntry("d/e/f".into()))
    );
    assert_eq!(get_pdf_paths(&tree, 0, &Depth::Max(1)), Ok(Vec::new()));
}

#[test]
fn expanding_an_expansion_changes_nothing() {
    for depth in [Depth::Max(1), Depth::Max(5), Depth::Infinite] {
        let found = get_pdf_paths(&dir_x(), 0, &depth).unwrap();
        let flat: Vec<Entry> = found.iter().map(|p| file(p)).collect();
        for again in [Depth::NotSpecified, Depth::Max(1), Depth::Max(9), Depth::Infinite] {
            assert_eq!(get_pdf_paths(&flat, 0, &again), Ok(found.clone()));
        }
    }
}

#[test]
fn queue_refuses_a_file_found_twice() {
    let tree = vec![dir("d", vec![file("d/a.pdf"), file("d/b.pdf")]), file("d/b.pdf"), file("d/a.pdf")];
    let strict = request(&["d", "d/b.pdf", "d/a.pdf"], Depth::Max(1), false);
    assert_eq!(
        strict.queue(&tree),
        Err(MergeRunError::PathRepetitionWithoutFlag("d/b.pdf".into()))
    );
    let lenient = request(&["d", "d/b.pdf", "d/a.pdf"], Depth::Max(1), true);
    assert_eq!(lenient.queue(&tree), Ok(names(&["d/a.pdf", "d/b.pdf", "d/b.pdf", "d/a.pdf"])));
    let shallow = request(&["d", "d/b.pdf", "d/a.pdf"], Depth::Max(0), false);
    assert_eq!(shallow.queue(&tree), Ok(names(&["d/b.pdf", "d/a.pdf"])));
}

#[test]
fn queue_passes_the_failure_of_the_walk_on() {
    let tree = vec![file("a.pdf"), file("a.pdf"), entry("gone.pdf", EntryState::Missing)];
    let strict = request(&["a.pdf", "a.pdf", "gone.pdf"], Depth::NotSpecified, false);
    assert_eq!(strict.queue(&tree), Err(MergeRunError::EntryDoesNotExists("gone.pdf".into())));
}

use lopdf::{Bookmark, Dictionary, Document, Object, Stream};
use pdmers::errors::MergeRunError;
use pdmers::merger::{
    classify, decode_sources, finalize, gen_pdf, load_sources, merge_decoded, merge_graphs,
    number_sources, place_source, save_bytes, tame_source, Decoded, ObjectKind, Source,
};

fn name(text: &str) -> Object {
    Object::Name(text.as_bytes().to_vec())
}

/// A document with `pages` pages, each with `label` and its number as content.
fn document(pages: usize, label: &str) -> Document {
    let mut doc = Document::with_version("1.5");
    let info_id = doc.add_object(Object::string_literal(format!("about {}", label)));
    let pages_id = doc.new_object_id();
    let mut kids = Vec::new();
    for i in 0..pages {
        let text = format!("BT ({} {}) Tj ET", label, i);
        let content_id = doc.add_object(Stream::new(Dictionary::new(), text.into_bytes()));
        let mut page = Dictionary::new();
        page.set("Type", name("Page"));
        page.set("Parent", pages_id);
        page.set("Contents", content_id);
        kids.push(Object::Reference(doc.add_object(page)));
    }
    let mut tree = Dictionary::new();
    tree.set("Type", name("Pages"));
    tree.set("Kids", kids);
    tree.set("Count", pages as i64);
    tree.set(format!("Of{}", label), name(label));
    doc.objects.insert(pages_id, Object::Dictionary(tree));
    let mut outline = Dictionary::new();
    outline.set("Type", name("Outlines"));
    let outline_id = doc.add_object(outline);
    let mut catalog = Dictionary::new();
    catalog.set("Type", name("Catalog"));
    catalog.set("Pages", pages_id);
    catalog.set("Outlines", outline_id);
    catalog.set("Made", name(label));
    let catalog_id = doc.add_object(catalog);
    doc.trailer.set("Root", catalog_id);
    doc.trailer.set("Info", info_id);
    doc
}

fn bytes_of(mut doc: Document) -> Vec<u8> {
    let mut bytes = Vec::new();
    doc.save_to(&mut bytes).unwrap();
    bytes
}

fn source(path: &str, doc: Document) -> Source {
    Source { path: path.to_string(), bytes: bytes_of(doc) }
}

fn pdf(path: &str, pages: usize, label: &str) -> Source {
    source(path, document(pages, label))
}

fn style() -> Bookmark {
    Bookmark::new(String::new(), [0.0, 0.0, 0.1], 0, (0, 0))
}

fn page_texts(doc: &Document) -> Vec<String> {
    doc.get_pages()
        .into_values()
        .map(|id| String::from_utf8(doc.get_page_content(id).unwrap()).unwrap())
        .collect()
}

fn texts(label: &str, pages: usize) -> Vec<String> {
    (0..pages).map(|i| format!("BT ({} {}) Tj ET", label, i)).collect()
}

fn titles(doc: &Document) -> Vec<String> {
    doc.bookmarks.iter().map(|id| doc.bookmark_table[id].title.clone()).collect()
}

#[test]
fn pages_are_those_of_the_sources_in_order() {
    let inputs = vec![pdf("a.pdf", 2, "A"), pdf("b.pdf", 3, "B"), pdf("c.pdf", 1, "C")];
    let merged = gen_pdf(&inputs, &style()).unwrap();
    assert_eq!(merged.get_pages().len(), 2 + 3 + 1);
    let mut expected = texts("A", 2);
    expected.extend(texts("B", 3));
    expected.extend(texts("C", 1));
    assert_eq!(page_texts(&merged), expected);
    let count = merged
        .catalog()
        .and_then(|c| c.get(b"Pages"))
        .and_then(Object::as_reference)
        .and_then(|id| merged.get_dictionary(id))
        .and_then(|tree| tree.get(b"Count"))
        .and_then(Object::as_i64)
        .unwrap();
    assert_eq!(count, 6);
}

#[test]
fn order_of_the_inputs_decides() {
    let inputs = vec![pdf("b.pdf", 3, "B"), pdf("a.pdf", 2, "A")];
    let merged = gen_pdf(&inputs, &style()).unwrap();
    let mut expected = texts("B", 3);
    expected.extend(texts("A", 2));
    assert_eq!(page_texts(&merged), expected);
}

#[test]
fn merging_a_document_with_itself_doubles_it() {
    let once = gen_pdf(&vec![pdf("a.pdf", 4, "A")], &style()).unwrap();
    assert_eq!(once.get_pages().len(), 4);
    assert!(titles(&once).is_empty());
    let twice = gen_pdf(&vec![pdf("a.pdf", 4, "A"), pdf("a.pdf", 4, "A")], &style()).unwrap();
    assert_eq!(twice.get_pages().len(), 8);
    assert_eq!(titles(&twice), vec!["Page_1".to_string()]);
    let mut expected = texts("A", 4);
    expected.extend(texts("A", 4));
    assert_eq!(page_texts(&twice), expected);
    // The bookmark stands where the second copy begins.
    let pages: Vec<_> = twice.get_pages().into_values().collect();
    let marks: Vec<_> = twice.bookmarks.iter().map(|id| twice.bookmark_table[id].page).collect();
    assert_eq!(marks, vec![pages[4]]);
}

#[test]
fn source_without_pages_gets_no_bookmark() {
    let inputs = vec![
        pdf("a.pdf", 2, "A"),
        pdf("empty.pdf", 0, "E"),
        pdf("b.pdf", 1, "B"),
        pdf("c.pdf", 1, "C"),
    ];
    let merged = gen_pdf(&inputs, &style()).unwrap();
    assert_eq!(merged.get_pages().len(), 4);
    assert_eq!(titles(&merged), vec!["Page_1".to_string(), "Page_2".to_string()]);
    let starts: Vec<_> = merged.get_pages().into_values().collect();
    let marked: Vec<_> = merged.bookmarks.iter().map(|id| merged.bookmark_table[id].page).collect();
    assert_eq!(marked, vec![starts[2], starts[3]]);
    let pages: Vec<_> = merged.get_pages().into_values().collect();
    for id in &merged.bookmarks {
        assert!(pages.contains(&merged.bookmark_table[id].page));
    }
    let only_empty = gen_pdf(&vec![pdf("empty.pdf", 0, "E"), pdf("none.pdf", 0, "N")], &style()).unwrap();
    assert_eq!(only_empty.get_pages().len(), 0);
    assert!(only_empty.bookmarks.is_empty());
    assert!(only_empty.catalog().unwrap().get(b"Outlines").is_err());
}

#[test]
fn bookmark_without_page_points_at_the_first_page_of_its_children() {
    // What the finalizer repairs: a bookmark on page (0, _) with children.
    let docs = load_sources(&vec![pdf("a.pdf", 2, "A"), pdf("b.pdf", 2, "B")]).unwrap();
    let mut merged = merge_graphs(&docs, &style()).unwrap().document;
    let first = merged.bookmarks[0];
    let target = merged.bookmark_table[&first].page;
    let parent = merged.add_bookmark(Bookmark::new("Part".to_string(), [0.0, 0.0, 0.1], 0, (0, 0)), None);
    merged.add_bookmark(Bookmark::new("Page".to_string(), [0.0, 0.0, 0.1], 0, target), Some(parent));
    merged.renumber_objects();
    let target = merged.bookmark_table[&first].page;
    merged.adjust_zero_pages();
    assert_eq!(merged.bookmark_table[&parent].page, target);
}

#[test]
fn merged_document_has_one_catalog_and_one_flat_page_tree() {
    let inputs = vec![pdf("a.pdf", 2, "A"), pdf("b.pdf", 2, "B")];
    let merged = gen_pdf(&inputs, &style()).unwrap();
    let kinds = |kind: &[u8]| {
        merged
            .objects
            .values()
            .filter(|o| o.as_dict().ok().and_then(|d| d.get_type().ok()) == Some(kind))
            .count()
    };
    assert_eq!(kinds(b"Catalog"), 1);
    assert_eq!(kinds(b"Pages"), 1);
    assert_eq!(kinds(b"Page"), 4);
    assert_eq!(kinds(b"Outlines"), 0);
    let catalog = merged.catalog().unwrap();
    let root = catalog.get(b"Pages").and_then(Object::as_reference).unwrap();
    // The first catalog is the one that is kept.
    assert_eq!(catalog.get(b"Made").and_then(Object::as_name).unwrap(), b"A");
    let tree = merged.get_dictionary(root).unwrap();
    let kids: Vec<_> = tree
        .get(b"Kids")
        .and_then(Object::as_array)
        .unwrap()
        .iter()
        .map(|k| k.as_reference().unwrap())
        .collect();
    assert_eq!(kids, merged.get_pages().into_values().collect::<Vec<_>>());
    for kid in kids {
        let page = merged.get_dictionary(kid).unwrap();
        assert_eq!(page.get(b"Parent").and_then(Object::as_reference).unwrap(), root);
    }
    // What only one of the page tree nodes says is kept.
    assert_eq!(tree.get(b"OfA").and_then(Object::as_name).unwrap(), b"A");
    assert_eq!(tree.get(b"OfB").and_then(Object::as_name).unwrap(), b"B");
    // The other objects are copied.
    let strings: Vec<_> = merged
        .objects
        .values()
        .filter_map(|o| o.as_str().ok())
        .map(|s| String::from_utf8(s.to_vec()).unwrap())
        .collect();
    assert_eq!(strings.len(), 2);
    assert!(strings.contains(&"about A".to_string()));
    assert!(strings.contains(&"about B".to_string()));
}

#[test]
fn sources_share_one_id_space() {
    let docs = load_sources(&vec![pdf("a.pdf", 2, "A"), pdf("b.pdf", 3, "B")]).unwrap();
    assert_eq!(docs.len(), 2);
    let first: Vec<u32> = docs[0].objects.keys().map(|id| id.0).collect();
    let second: Vec<u32> = docs[1].objects.keys().map(|id| id.0).collect();
    assert_eq!(first, (1..=first.len() as u32).collect::<Vec<_>>());
    assert_eq!(docs[0].max_id, first.len() as u32);
    let start = docs[0].max_id + 1;
    assert_eq!(second, (start..start + second.len() as u32).collect::<Vec<_>>());
    assert_eq!(docs[1].max_id, start + second.len() as u32 - 1);
    assert_eq!(docs[1].get_pages().len(), 3);
}

#[test]
fn assembled_document_keeps_the_ids_of_the_sources() {
    let docs = load_sources(&vec![pdf("a.pdf", 1, "A"), pdf("b.pdf", 1, "B")]).unwrap();
    let assembled = merge_graphs(&docs, &style()).unwrap();
    assert_eq!(assembled.pages, 2);
    let merged = assembled.document;
    let pages: Vec<_> = docs.iter().flat_map(|d| d.get_pages().into_values()).collect();
    assert_eq!(merged.get_pages().into_values().collect::<Vec<_>>(), pages);
    assert_eq!(titles(&merged), vec!["Page_1".to_string()]);
    let catalog = merged.catalog().unwrap();
    assert!(catalog.get(b"Outlines").is_err());
    assert_eq!(merged.version, "1.5");
    let marks: Vec<_> = merged.bookmarks.iter().map(|id| merged.bookmark_table[id].clone()).collect();
    assert_eq!(marks[0].page, pages[1]);
    assert_eq!(marks[0].color, [0.0, 0.0, 0.1]);
    assert_eq!(marks[0].format, 0);
}

#[test]
fn finalized_document_is_numbered_without_gaps() {
    let docs = load_sources(&vec![pdf("a.pdf", 2, "A"), pdf("b.pdf", 1, "B")]).unwrap();
    let merged = merge_graphs(&docs, &style()).unwrap();
    let before = merged.document.objects.len() as u32;
    // The number of pages is written when the objects have their last numbers.
    let root = |d: &Document| {
        let id = d.catalog().and_then(|c| c.get(b"Pages")).and_then(Object::as_reference).unwrap();
        d.get_dictionary(id).unwrap().clone()
    };
    assert!(root(&merged.document).get(b"Count").is_err());
    let done = finalize(merged);
    assert_eq!(root(&done).get(b"Count").and_then(Object::as_i64).unwrap(), 3);
    let numbers: Vec<u32> = done.objects.keys().map(|id| id.0).collect();
    assert_eq!(numbers, (1..=numbers.len() as u32).collect::<Vec<_>>());
    // One object for the outline and two for the bookmark.
    assert_eq!(done.objects.len() as u32, before + 1 + 2);
    assert_eq!(done.max_id, done.objects.len() as u32);
    let outline = done.catalog().unwrap().get(b"Outlines").and_then(Object::as_reference).unwrap();
    let outline = done.get_dictionary(outline).unwrap();
    assert_eq!(outline.get(b"Count").and_then(Object::as_i64).unwrap(), 1);
    assert_eq!(done.get_pages().len(), 3);
}

#[test]
fn merged_document_can_be_written_and_read_again() {
    let inputs = vec![pdf("a.pdf", 2, "A"), pdf("b.pdf", 2, "B")];
    let merged = gen_pdf(&inputs, &style()).unwrap();
    let bytes = save_bytes(merged).unwrap();
    assert!(bytes.starts_with(b"%PDF-1.5"));
    let again = Document::load_mem(&bytes).unwrap();
    assert_eq!(again.get_pages().len(), 4);
    let mut expected = texts("A", 2);
    expected.extend(texts("B", 2));
    assert_eq!(page_texts(&again), expected);
    assert!(again.catalog().unwrap().get(b"Outlines").is_ok());
}

#[test]
fn document_with_the_highest_id_cannot_be_written() {
    let mut doc = document(1, "A");
    doc.max_id = u32::MAX;
    assert_eq!(save_bytes(doc), None);
    let mut doc = document(1, "A");
    doc.max_id = u32::MAX - 1;
    assert_eq!(save_bytes(doc), None);
    assert!(save_bytes(document(1, "A")).is_some());
}

#[test]
fn input_that_is_no_pdf_fails_with_its_path() {
    let inputs = vec![
        pdf("a.pdf", 1, "A"),
        Source { path: "broken.pdf".to_string(), bytes: b"not a pdf".to_vec() },
        Source { path: "empty.pdf".to_string(), bytes: Vec::new() },
    ];
    assert_eq!(
        gen_pdf(&inputs, &style()).err(),
        Some(MergeRunError::CouldNotLoadInput("broken.pdf".into()))
    );
    assert_eq!(
        load_sources(&inputs).err(),
        Some(MergeRunError::CouldNotLoadInput("broken.pdf".into()))
    );
}

#[test]
fn sources_without_page_tree_have_no_root_page() {
    let mut doc = Document::with_version("1.5");
    let mut catalog = Dictionary::new();
    catalog.set("Type", name("Catalog"));
    let catalog_id = doc.add_object(catalog);
    doc.trailer.set("Root", catalog_id);
    let inputs = vec![source("bare.pdf", doc)];
    assert_eq!(gen_pdf(&inputs, &style()).err(), Some(MergeRunError::RootPageNotFound));
    assert_eq!(gen_pdf(&Vec::new(), &style()).err(), Some(MergeRunError::RootPageNotFound));
}

#[test]
fn sources_without_catalog_have_none() {
    let mut doc = Document::with_version("1.5");
    let mut tree = Dictionary::new();
    tree.set("Type", name("Pages"));
    tree.set("Kids", Vec::<Object>::new());
    tree.set("Count", 0);
    let tree_id = doc.add_object(tree);
    doc.trailer.set("Root", tree_id);
    let inputs = vec![source("rootless.pdf", doc)];
    assert_eq!(gen_pdf(&inputs, &style()).err(), Some(MergeRunError::CatalogIsNone));
}

#[test]
fn objects_are_sorted_by_their_type_name() {
    assert_eq!(classify(b"Catalog"), ObjectKind::Catalog);
    assert_eq!(classify(b"Pages"), ObjectKind::Pages);
    assert_eq!(classify(b"Page"), ObjectKind::Page);
    assert_eq!(classify(b"Outlines"), ObjectKind::Outlines);
    assert_eq!(classify(b"Outline"), ObjectKind::Outline);
    assert_eq!(classify(b""), ObjectKind::Other);
    assert_eq!(classify(b"Font"), ObjectKind::Other);
    assert_eq!(classify(b"page"), ObjectKind::Other);
    assert_eq!(classify(b"Pagex"), ObjectKind::Other);
    assert_eq!(classify(b"Pag"), ObjectKind::Other);
    assert_eq!(classify(b"Catalo"), ObjectKind::Other);
    assert_eq!(classify(b"Outliness"), ObjectKind::Other);
}

#[test]
fn streams_of_the_merged_document_are_compressed() {
    let mut doc = document(1, "A");
    let text = "BT (a long line of text that repeats itself) Tj ET\n".repeat(40);
    let content_id = doc.add_object(Stream::new(Dictionary::new(), text.clone().into_bytes()));
    let page_id = doc.get_pages().into_values().next().unwrap();
    doc.get_object_mut(page_id)
        .and_then(Object::as_dict_mut)
        .unwrap()
        .set("Contents", content_id);
    let docs = load_sources(&vec![source("a.pdf", doc), pdf("b.pdf", 1, "B")]).unwrap();
    let merged = merge_graphs(&docs, &style()).unwrap();
    let plain_streams = |d: &Document| {
        d.objects
            .values()
            .filter_map(|o| o.as_stream().ok())
            .filter(|s| s.dict.get(b"Filter").is_err())
            .count()
    };
    let before = plain_streams(&merged.document);
    let done = finalize(merged);
    assert!(plain_streams(&done) < before);
    let page = done.get_pages().into_values().next().unwrap();
    assert_eq!(String::from_utf8(done.get_page_content(page).unwrap()).unwrap(), text);
}

#[test]
fn page_tree_that_claims_too_many_pages_is_walked_as_it_is() {
    let mut doc = document(2, "A");
    let root = doc.catalog().and_then(|c| c.get(b"Pages")).and_then(Object::as_reference).unwrap();
    let mut inner = Dictionary::new();
    inner.set("Type", name("Pages"));
    inner.set("Kids", Vec::<Object>::new());
    inner.set("Count", i64::MAX);
    inner.set("Parent", root);
    let inner_id = doc.add_object(inner);
    let tree = doc.get_object_mut(root).and_then(Object::as_dict_mut).unwrap();
    let mut kids = tree.get(b"Kids").and_then(Object::as_array).unwrap().clone();
    kids.push(Object::Reference(inner_id));
    tree.set("Kids", kids);
    let docs = vec![doc];
    let merged = merge_graphs(&docs, &style()).unwrap();
    assert_eq!(merged.pages, 2);
    assert_eq!(merged.document.get_pages().len(), 2);
}

#[test]
fn source_that_claims_too_many_pages_is_merged_as_what_it_holds() {
    let claim = |count: i64| {
        let mut doc = document(2, "A");
        let root =
            doc.catalog().and_then(|c| c.get(b"Pages")).and_then(Object::as_reference).unwrap();
        let mut inner = Dictionary::new();
        inner.set("Type", name("Pages"));
        inner.set("Kids", Vec::<Object>::new());
        inner.set("Count", count);
        inner.set("Parent", root);
        let inner_id = doc.add_object(inner);
        let tree = doc.get_object_mut(root).and_then(Object::as_dict_mut).unwrap();
        let mut kids = tree.get(b"Kids").and_then(Object::as_array).unwrap().clone();
        kids.push(Object::Reference(inner_id));
        tree.set("Kids", kids);
        tree.set("Count", count);
        source("a.pdf", doc)
    };
    let inputs = vec![claim(i64::MAX), claim(i64::MAX / 2), pdf("b.pdf", 1, "B")];
    let docs = load_sources(&inputs).unwrap();
    for doc in &docs {
        for object in doc.objects.values().filter_map(|o| o.as_dict().ok()) {
            assert!(!(object.has_type(b"Pages") && object.has(b"Count")));
        }
    }
    let merged = gen_pdf(&inputs, &style()).unwrap();
    assert_eq!(merged.get_pages().len(), 5);
    let count = merged
        .catalog()
        .and_then(|c| c.get(b"Pages"))
        .and_then(Object::as_reference)
        .and_then(|id| merged.get_dictionary(id))
        .and_then(|tree| tree.get(b"Count"))
        .and_then(Object::as_i64)
        .unwrap();
    assert_eq!(count, 5);
}

fn decoded(path: &str, document: Option<Document>) -> Decoded {
    Decoded { path: path.to_string(), document }
}

#[test]
fn decoding_gives_one_answer_for_each_input() {
    let inputs = vec![
        pdf("a.pdf", 1, "A"),
        Source { path: "broken.pdf".to_string(), bytes: b"%PDF-1.5 nothing".to_vec() },
        pdf("b.pdf", 2, "B"),
    ];
    let decodes = decode_sources(&inputs);
    let paths: Vec<_> = decodes.iter().map(|d| d.path.clone()).collect();
    assert_eq!(paths, vec!["a.pdf".to_string(), "broken.pdf".to_string(), "b.pdf".to_string()]);
    let found: Vec<_> = decodes.iter().map(|d| d.document.is_some()).collect();
    assert_eq!(found, vec![true, false, true]);
    assert_eq!(decodes[2].document.as_ref().unwrap().get_pages().len(), 2);
}

#[test]
fn numbering_fails_at_the_first_source_that_was_not_decoded() {
    let decodes = vec![
        decoded("a.pdf", Some(document(1, "A"))),
        decoded("b.pdf", None),
        decoded("c.pdf", None),
    ];
    assert_eq!(
        number_sources(decodes).err(),
        Some(MergeRunError::CouldNotLoadInput("b.pdf".into()))
    );
    let decodes = vec![decoded("a.pdf", Some(document(1, "A"))), decoded("b.pdf", None)];
    assert_eq!(
        merge_decoded(decodes, &style()).err(),
        Some(MergeRunError::CouldNotLoadInput("b.pdf".into()))
    );
    assert_eq!(number_sources(Vec::new()).unwrap().len(), 0);
}

#[test]
fn decoded_sources_are_merged_in_their_order() {
    let decodes = vec![
        decoded("b.pdf", Some(document(2, "B"))),
        decoded("a.pdf", Some(document(1, "A"))),
    ];
    let merged = merge_decoded(decodes, &style()).unwrap();
    let mut expected = texts("B", 2);
    expected.extend(texts("A", 1));
    assert_eq!(page_texts(&merged), expected);
    assert_eq!(titles(&merged), vec!["Page_1".to_string()]);
}

#[test]
fn source_is_placed_where_the_one_before_ended() {
    let doc = document(2, "A");
    let count = doc.objects.len() as u32;
    let placed = place_source(doc, 40).unwrap();
    let numbers: Vec<u32> = placed.objects.keys().map(|id| id.0).collect();
    assert_eq!(numbers, (40..40 + count).collect::<Vec<_>>());
    assert_eq!(placed.max_id, 40 + count - 1);
    assert_eq!(placed.get_pages().len(), 2);
    assert!(place_source(document(2, "A"), 0).is_none());
    assert!(place_source(document(2, "A"), 0x1fff_ffff).is_none());
    assert!(place_source(document(2, "A"), 0x2000_0000).is_none());
    assert!(place_source(document(2, "A"), 0x1fff_ffff - count).is_some());
    assert!(place_source(document(2, "A"), 0x1fff_ffff - count + 1).is_none());
}

#[test]
fn taming_takes_the_count_from_page_tree_nodes_only() {
    let mut doc = document(2, "A");
    let mut other = Dictionary::new();
    other.set("Type", name("Outlines"));
    other.set("Count", 7);
    let other_id = doc.add_object(other);
    let before = doc.clone();
    let tamed = tame_source(doc);
    assert_eq!(tamed.objects.len(), before.objects.len());
    assert_eq!(tamed.get_dictionary(other_id).unwrap().get(b"Count").and_then(Object::as_i64).unwrap(), 7);
    for (id, object) in &before.objects {
        let now = &tamed.objects[id];
        match object.as_dict() {
            Ok(dict) if dict.has_type(b"Pages") => {
                let mut expected = dict.clone();
                expected.remove(b"Count");
                assert_eq!(now.as_dict().unwrap(), &expected);
                assert!(dict.has(b"Count"));
            }
            _ => assert_eq!(now, object),
        }
    }
    assert_eq!(tamed.get_pages().len(), 2);
}

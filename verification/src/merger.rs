//! The object-graph merger: one document out of many.
//!
//! Every source is decoded and renumbered into a shared id space. Its pages
//! are gathered in order, its other objects are sorted by kind, and one page
//! tree and one catalog are written for all of them.
use vstd::prelude::*;
use vstd::string::*;
use lopdf::{Bookmark, Dictionary, Document, Object};
use crate::errors::MergeRunError;
use crate::pdf::{
    add_bookmark, adjust_zero_pages, array_object, as_dictionary, build_outline,
    catalog_entry_set, claims_pages, compress, compressed, copy_object, decode, dictionary_object,
    dictionary_of, doc_max_id, empty_document, encode, encoded, entry_removed, entry_set, extend,
    extended, insert_object, inserted, integer_object, kind_name, kind_name_of, make_array,
    make_dictionary, make_integer, make_reference, max_id, new_document, object_count,
    object_list, objects_of, outline_root, outlined, page_ids, page_list, page_tree_entry_set,
    page_word, pages_word, reference_object, remove_entry, renumber, renumbered, resolve,
    resolved, set_catalog_entry, set_entry, set_page_tree_entry, set_trailer_entry, tame,
    tells_type, top_bookmarks, trailer_entry_set, with_bookmark, zero_pages_adjusted,
};
use crate::text::{decimal, decimal_text};

verus! {

/// Number and generation of an indirect object.
pub type ObjectId = (u32, u16);

/// An indirect object: an object under its id.
pub type IndirectObject = (ObjectId, Object);

/// What the `Type` of an object makes of it in a merge.
#[derive(Clone, Copy, Debug, PartialEq, Eq, Structural)]
pub enum ObjectKind {
    /// A document root: the first one is kept.
    Catalog,
    /// A page tree node: all are folded into one.
    Pages,
    /// A page: kept where the page tree of its source reaches it.
    Page,
    /// The root of an outline: dropped.
    Outlines,
    /// An outline item: dropped.
    Outline,
    /// Anything else: copied.
    Other,
}

/// The bytes of `Catalog`.
pub open spec fn catalog_word() -> Seq<u8> {
    seq![67u8, 97u8, 116u8, 97u8, 108u8, 111u8, 103u8]
}

/// The bytes of `Outlines`.
pub open spec fn outlines_word() -> Seq<u8> {
    seq![79u8, 117u8, 116u8, 108u8, 105u8, 110u8, 101u8, 115u8]
}

/// The bytes of `Outline`.
pub open spec fn outline_word() -> Seq<u8> {
    seq![79u8, 117u8, 116u8, 108u8, 105u8, 110u8, 101u8]
}

/// The kind that a type name stands for.
pub open spec fn kind_of(name: Seq<u8>) -> ObjectKind {
    if name == catalog_word() {
        ObjectKind::Catalog
    } else if name == pages_word() {
        ObjectKind::Pages
    } else if name == page_word() {
        ObjectKind::Page
    } else if name == outlines_word() {
        ObjectKind::Outlines
    } else if name == outline_word() {
        ObjectKind::Outline
    } else {
        ObjectKind::Other
    }
}

/// Whether two runs of bytes are the same.
fn same_bytes(a: &[u8], b: &[u8]) -> (r: bool)
    ensures
        r == (a@ == b@),
{
    if a.len() != b.len() {
        return false;
    }
    let mut i: usize = 0;
    while i < a.len()
        invariant
            a@.len() == b@.len(),
            i <= a@.len(),
            a@.subrange(0, i as int) == b@.subrange(0, i as int),
        decreases a@.len() - i,
    {
        if a[i] != b[i] {
            return false;
        }
        assert(a@.subrange(0, i + 1) == a@.subrange(0, i as int).push(a@[i as int]));
        assert(b@.subrange(0, i + 1) == b@.subrange(0, i as int).push(b@[i as int]));
        i += 1;
    }
    assert(a@ == a@.subrange(0, a@.len() as int));
    assert(b@ == b@.subrange(0, b@.len() as int));
    true
}

/// Sorts an object by its type name. The match is exact and case-sensitive.
pub fn classify(name: &[u8]) -> (kind: ObjectKind)
    ensures
        kind == kind_of(name@),
{
    let catalog: [u8; 7] = [67, 97, 116, 97, 108, 111, 103];
    let pages: [u8; 5] = [80, 97, 103, 101, 115];
    let page: [u8; 4] = [80, 97, 103, 101];
    let outlines: [u8; 8] = [79, 117, 116, 108, 105, 110, 101, 115];
    let outline: [u8; 7] = [79, 117, 116, 108, 105, 110, 101];
    assert(catalog@ == catalog_word());
    assert(pages@ == pages_word());
    assert(page@ == page_word());
    assert(outlines@ == outlines_word());
    assert(outline@ == outline_word());
    if same_bytes(name, catalog.as_slice()) {
        ObjectKind::Catalog
    } else if same_bytes(name, pages.as_slice()) {
        ObjectKind::Pages
    } else if same_bytes(name, page.as_slice()) {
        ObjectKind::Page
    } else if same_bytes(name, outlines.as_slice()) {
        ObjectKind::Outlines
    } else if same_bytes(name, outline.as_slice()) {
        ObjectKind::Outline
    } else {
        ObjectKind::Other
    }
}

/// The most objects that the sources of one merge may hold together. The
/// merged document holds at most twice as many and two more, and gets an
/// outline on top: all of them must find a number.
pub const ID_LIMIT: u32 = 0x1fff_ffff;

/// One source of a merge: the bytes of a file, and the path they were read from.
#[derive(Clone, Debug, PartialEq)]
pub struct Source {
    /// Where the bytes came from; named in errors.
    pub path: String,
    /// The content of the file.
    pub bytes: Vec<u8>,
}

/// The number that the first object of the next source gets.
pub open spec fn next_start(docs: Seq<Document>) -> int {
    if docs.len() == 0 {
        1
    } else {
        doc_max_id(docs.last()) + 1
    }
}

/// The number that the first object of source `k` got.
pub open spec fn start_of(docs: Seq<Document>, k: int) -> int {
    if k == 0 {
        1
    } else {
        doc_max_id(docs[k - 1]) + 1
    }
}

/// Source `k` holds the numbers from its start up to its `max_id`, one for
/// each of its objects, and stays within the id space.
pub open spec fn numbered_at(docs: Seq<Document>, k: int) -> bool {
    &&& start_of(docs, k) + object_list(docs[k]).len() == doc_max_id(docs[k]) + 1
    &&& doc_max_id(docs[k]) + 1 <= ID_LIMIT
    &&& forall|i: int|
        0 <= i < object_list(docs[k]).len() ==> start_of(docs, k) <= (#[trigger] object_list(
            docs[k],
        )[i]).0.0 <= doc_max_id(docs[k])
}

/// The sources share one id space: each holds a range of numbers of its own,
/// and the ranges follow one another in the order of the sources.
pub open spec fn numbered(docs: Seq<Document>) -> bool {
    forall|k: int| 0 <= k < docs.len() ==> #[trigger] numbered_at(docs, k)
}

/// What decoding one source gave.
pub struct Decoded {
    /// Where the bytes came from; named in errors.
    pub path: String,
    /// The document that the bytes encode, or nothing where they encode none.
    pub document: Option<Document>,
}

/// Whether `decodes` are the inputs decoded: one for each input, in their
/// order, under the path of the input.
pub open spec fn decoded_from(decodes: Seq<Decoded>, inputs: Seq<Source>) -> bool {
    &&& decodes.len() == inputs.len()
    &&& forall|i: int| 0 <= i < decodes.len() ==> (#[trigger] decodes[i]).path == inputs[i].path
}

/// Whether an object is a page tree node: a dictionary of type `Pages`.
pub open spec fn is_page_tree_node(object: Object) -> bool {
    kind_name_of(object) == pages_word() && dictionary_of(object).is_some()
}

/// The object that stands for `object` in a tamed document: a page tree node
/// loses its `Count`, every other object stays.
pub open spec fn tamed_object(object: Object) -> Object {
    if is_page_tree_node(object) {
        dictionary_object(entry_removed(dictionary_of(object)->0, "Count"@))
    } else {
        object
    }
}

/// `doc` with the first `n` of `entries` tamed, each put in under its id.
pub open spec fn tamed_up_to(doc: Document, entries: Seq<IndirectObject>, n: int) -> Document
    decreases n,
{
    if n <= 0 {
        doc
    } else if is_page_tree_node(entries[n - 1].1) {
        inserted(tamed_up_to(doc, entries, n - 1), entries[n - 1].0, tamed_object(entries[n - 1].1))
    } else {
        tamed_up_to(doc, entries, n - 1)
    }
}

/// A document without the `Count` of its page tree nodes. The merger counts
/// the pages itself; what the nodes of a source claim is of no use to it.
pub open spec fn tamed(doc: Document) -> Document {
    tamed_up_to(doc, object_list(doc), object_list(doc).len() as int)
}

/// Takes the `Count` from every page tree node of a document.
pub fn tame_source(doc: Document) -> (r: Document)
    ensures
        r == tamed(doc),
        tame(r),
        object_list(r).len() == object_list(doc).len(),
{
    let entries = objects_of(&doc);
    let ghost given = doc;
    let mut doc = doc;
    let mut i: usize = 0;
    while i < entries.len()
        invariant
            i <= entries@.len(),
            entries@ == object_list(given),
            doc == tamed_up_to(given, entries@, i as int),
            object_list(doc).len() == entries@.len(),
            forall|j: int|
                0 <= j < entries@.len() ==> (#[trigger] object_list(doc)[j]).0 == entries@[j].0,
            forall|j: int| 0 <= j < i ==> !claims_pages((#[trigger] object_list(doc)[j]).1),
            forall|j: int| i <= j < entries@.len() ==> #[trigger] object_list(doc)[j] == entries@[j],
        decreases entries@.len() - i,
    {
        let name = kind_name(&entries[i].1);
        let word: [u8; 5] = [80, 97, 103, 101, 115];
        assert(word@ == pages_word());
        if same_bytes(name.as_slice(), word.as_slice()) {
            match as_dictionary(&entries[i].1) {
                Some(dict) => {
                    let mut dict = dict;
                    let ghost before = object_list(doc);
                    remove_entry(&mut dict, "Count");
                    insert_object(&mut doc, entries[i].0, make_dictionary(dict));
                    proof {
                        assert(before[i as int].0 == entries@[i as int].0);
                        assert(object_list(doc) == before.update(
                            i as int,
                            (entries@[i as int].0, dictionary_object(dict)),
                        ));
                    }
                },
                None => {},
            }
        }
        i += 1;
    }
    doc
}

/// A document tamed and renumbered to start at `next`, if its objects fit
/// into the id space from there.
pub open spec fn placed(doc: Document, next: int) -> Option<Document> {
    if 1 <= next && next + object_list(doc).len() <= ID_LIMIT {
        Some(renumbered(tamed(doc), next as u32))
    } else {
        None
    }
}

/// The decoded documents, each renumbered to start where the one before it
/// ended; or the index of the first source that was not decoded or does not
/// fit into the id space any more.
pub open spec fn loaded(decodes: Seq<Decoded>) -> Result<Seq<Document>, int>
    decreases decodes.len(),
{
    if decodes.len() == 0 {
        Ok(Seq::empty())
    } else {
        match loaded(decodes.drop_last()) {
            Err(i) => Err(i),
            Ok(docs) => match decodes.last().document {
                None => Err(decodes.len() - 1),
                Some(doc) => match placed(doc, next_start(docs)) {
                    None => Err(decodes.len() - 1),
                    Some(renumbered) => Ok(docs.push(renumbered)),
                },
            },
        }
    }
}

/// A failure among the first `k` sources is the failure of the whole list.
proof fn lemma_loaded_prefix_error(decodes: Seq<Decoded>, k: int)
    requires
        0 <= k <= decodes.len(),
        loaded(decodes.take(k)) is Err,
    ensures
        loaded(decodes) == loaded(decodes.take(k)),
    decreases decodes.len() - k,
{
    if k == decodes.len() {
        assert(decodes.take(k) == decodes);
    } else {
        assert(decodes.take(k + 1).drop_last() == decodes.take(k));
        lemma_loaded_prefix_error(decodes, k + 1);
    }
}

/// Tames a document and renumbers it so that its objects take the numbers
/// from `next` on. Gives nothing where the numbers up to the limit of the id
/// space do not suffice, or `next` is not a number of the id space.
pub fn place_source(doc: Document, next: u32) -> (r: Option<Document>)
    ensures
        r == placed(doc, next as int),
        r matches Some(renumbered) ==> {
            &&& next + object_list(renumbered).len() == doc_max_id(renumbered) + 1
            &&& doc_max_id(renumbered) + 1 <= ID_LIMIT
            &&& forall|i: int|
                0 <= i < object_list(renumbered).len() ==> next <= (#[trigger] object_list(
                    renumbered,
                )[i]).0.0 <= doc_max_id(renumbered)
        },
{
    if next < 1 || next > ID_LIMIT {
        return None;
    }
    let n = object_count(&doc);
    if n > (ID_LIMIT - next) as usize {
        return None;
    }
    let mut doc = tame_source(doc);
    renumber(&mut doc, next);
    Some(doc)
}

/// What numbering the decoded sources gives: the documents in one id space,
/// or a failure to load that names the first source that was not decoded or
/// does not fit.
pub open spec fn numbering(decodes: Seq<Decoded>, r: Result<Vec<Document>, MergeRunError>) -> bool {
    match loaded(decodes) {
        Ok(docs) => r matches Ok(v) && v@ == docs && numbered(v@),
        Err(i) => 0 <= i < decodes.len() && r == Err::<Vec<Document>, MergeRunError>(
            MergeRunError::CouldNotLoadInput(decodes[i].path),
        ),
    }
}

/// Brings the decoded sources into one id space: each document is renumbered
/// so that its objects follow those of the document before it, starting at 1.
///
/// Fails at the first source that was not decoded, or whose objects do not
/// fit into the id space, with the path of that source.
pub fn number_sources(decodes: Vec<Decoded>) -> (r: Result<Vec<Document>, MergeRunError>)
    ensures
        numbering(decodes@, r),
{
    let mut rest = decodes;
    let mut docs: Vec<Document> = Vec::new();
    let mut next: u32 = 1;
    let ghost all = rest@;
    assert(all.take(0) == Seq::<Decoded>::empty());
    assert(all.skip(0) == all);
    while rest.len() > 0
        invariant
            all == decodes@,
            docs@.len() <= all.len(),
            rest@ == all.skip(docs@.len() as int),
            loaded(all.take(docs@.len() as int)) == Ok::<Seq<Document>, int>(docs@),
            numbered(docs@),
            next == next_start(docs@),
            1 <= next <= ID_LIMIT,
        decreases rest@.len(),
    {
        let ghost k = docs@.len() as int;
        proof {
            assert(all.take(k + 1).drop_last() == all.take(k));
            assert(all.take(k + 1).last() == all[k]);
            assert(rest@[0] == all[k]);
        }
        let Decoded { path, document } = rest.remove(0);
        proof {
            assert(rest@ == all.skip(k + 1));
            assert(path == all[k].path);
            assert(document == all[k].document);
        }
        let placed = match document {
            Some(doc) => place_source(doc, next),
            None => None,
        };
        match placed {
            None => {
                proof {
                    assert(loaded(all.take(k + 1)) == Err::<Seq<Document>, int>(k));
                    lemma_loaded_prefix_error(all, k + 1);
                }
                return Err(MergeRunError::CouldNotLoadInput(path));
            },
            Some(doc) => {
                let ghost before = docs@;
                next = max_id(&doc) + 1;
                docs.push(doc);
                proof {
                    assert forall|j: int| 0 <= j < docs@.len() implies #[trigger] numbered_at(
                        docs@,
                        j,
                    ) by {
                        if j < before.len() {
                            assert(numbered_at(before, j));
                            assert(docs@[j] == before[j]);
                            if j > 0 {
                                assert(docs@[j - 1] == before[j - 1]);
                            }
                        }
                    }
                }
            },
        }
    }
    proof {
        assert(all.take(docs@.len() as int) == all);
    }
    Ok(docs)
}

/// Decodes every input. What an input decodes to is for the decoder to say:
/// there is one answer for each input, under its path.
pub fn decode_sources(inputs: &Vec<Source>) -> (r: Vec<Decoded>)
    ensures
        decoded_from(r@, inputs@),
{
    let mut decodes: Vec<Decoded> = Vec::new();
    let mut k: usize = 0;
    while k < inputs.len()
        invariant
            k <= inputs@.len(),
            decodes@.len() == k,
            forall|i: int| 0 <= i < k ==> (#[trigger] decodes@[i]).path == inputs@[i].path,
        decreases inputs@.len() - k,
    {
        let document = match decode(inputs[k].bytes.as_slice()) {
            Ok(doc) => Some(doc),
            Err(_) => None,
        };
        decodes.push(Decoded { path: inputs[k].path.clone(), document });
        k += 1;
    }
    decodes
}

/// Decodes the inputs and brings the documents into one id space.
///
/// What an input decodes to is for the decoder to say; `number_sources` says
/// what becomes of each answer. Here it holds that the result is what
/// numbering gives for some decoding of the inputs: the documents in one id
/// space, or a failure to load that names one of the inputs.
pub fn load_sources(inputs: &Vec<Source>) -> (r: Result<Vec<Document>, MergeRunError>)
    ensures
        exists|decodes: Seq<Decoded>| #[trigger]
            decoded_from(decodes, inputs@) && numbering(decodes, r),
        inputs@.len() == 0 ==> (r matches Ok(v) && v@.len() == 0),
{
    let decodes = decode_sources(inputs);
    let ghost given = decodes@;
    let r = number_sources(decodes);
    proof {
        assert(decoded_from(given, inputs@) && numbering(given, r));
        if inputs@.len() == 0 {
            assert(given == Seq::<Decoded>::empty());
        }
    }
    r
}

/// The objects of all sources, source after source, each by ascending id.
pub open spec fn all_entries(docs: Seq<Document>) -> Seq<IndirectObject>
    decreases docs.len(),
{
    if docs.len() == 0 {
        Seq::empty()
    } else {
        all_entries(docs.drop_last()) + object_list(docs.last())
    }
}

/// The place of the first entry of `map` under `id`, or the length of `map`
/// where there is none.
pub open spec fn index_of(map: Seq<IndirectObject>, id: ObjectId) -> int
    decreases map.len(),
{
    if map.len() == 0 {
        0
    } else {
        let i = index_of(map.drop_last(), id);
        if i < map.len() - 1 {
            i
        } else if map.last().0 == id {
            map.len() - 1
        } else {
            map.len() as int
        }
    }
}

/// The page map after `object` was recorded under `id`: an id that is there
/// keeps its place and gets the new object, a new id goes to the end.
pub open spec fn put_page(map: Seq<IndirectObject>, id: ObjectId, object: Object) -> Seq<IndirectObject> {
    if index_of(map, id) < map.len() {
        map.update(index_of(map, id), (id, object))
    } else {
        map.push((id, object))
    }
}

/// The page map after the pages `ids` of `doc` were recorded, in their order.
pub open spec fn pages_put(map: Seq<IndirectObject>, doc: Document, ids: Seq<ObjectId>) -> Seq<IndirectObject>
    decreases ids.len(),
{
    if ids.len() == 0 {
        map
    } else {
        let before = pages_put(map, doc, ids.drop_last());
        match resolved(doc, ids.last()) {
            Some(object) => put_page(before, ids.last(), object),
            None => before,
        }
    }
}

/// The page map of all sources: the pages of each source in the order of its
/// own page tree, the sources in their order.
pub open spec fn all_pages(docs: Seq<Document>) -> Seq<IndirectObject>
    decreases docs.len(),
{
    if docs.len() == 0 {
        Seq::empty()
    } else {
        pages_put(all_pages(docs.drop_last()), docs.last(), page_list(docs.last()))
    }
}

/// Where a new source begins in the merged document: the first page of every
/// source but the first that has a page, in the order of the sources.
pub open spec fn marks(docs: Seq<Document>) -> Seq<ObjectId>
    decreases docs.len(),
{
    if docs.len() <= 1 {
        Seq::empty()
    } else if page_list(docs.last()).len() > 0 {
        marks(docs.drop_last()).push(page_list(docs.last())[0])
    } else {
        marks(docs.drop_last())
    }
}

/// The title of the `n`th bookmark, counted from 1.
pub open spec fn mark_title(n: nat) -> Seq<char> {
    "Page_"@ + decimal_text(n)
}

/// `doc` with one bookmark for each of `marks`, titled by their count.
pub open spec fn bookmarked(doc: Document, style: Bookmark, marks: Seq<ObjectId>) -> Document
    decreases marks.len(),
{
    if marks.len() == 0 {
        doc
    } else {
        with_bookmark(
            bookmarked(doc, style, marks.drop_last()),
            style,
            mark_title(marks.len()),
            marks.last(),
        )
    }
}

/// The kind of an entry.
pub open spec fn entry_kind(entry: IndirectObject) -> ObjectKind {
    kind_of(kind_name_of(entry.1))
}

/// The first catalog among the entries.
pub open spec fn first_catalog(entries: Seq<IndirectObject>) -> Option<IndirectObject>
    decreases entries.len(),
{
    if entries.len() == 0 {
        None
    } else {
        match first_catalog(entries.drop_last()) {
            Some(found) => Some(found),
            None => if entry_kind(entries.last()) == ObjectKind::Catalog {
                Some(entries.last())
            } else {
                None
            },
        }
    }
}

/// The id of the first page tree node among the entries that is a dictionary,
/// with the dictionary that all such nodes fold into: each later one extended
/// with what the earlier ones gave.
///
/// A key that only one of two dictionaries holds keeps its value. For a key
/// that both hold, `Dictionary::extend` does not let either value win: two
/// dictionaries are extended in turn, two arrays are joined, two numbers,
/// strings or references become an array of both, and of other pairs the
/// value of the later dictionary stays or both go into an array. `Kids` and
/// `Count` are written anew in `page_tree`, whatever the fold made of them.
pub open spec fn pages_root(entries: Seq<IndirectObject>) -> Option<(ObjectId, Dictionary)>
    decreases entries.len(),
{
    if entries.len() == 0 {
        None
    } else {
        let before = pages_root(entries.drop_last());
        if entry_kind(entries.last()) == ObjectKind::Pages {
            match dictionary_of(entries.last().1) {
                Some(dict) => match before {
                    Some((id, earlier)) => Some((id, extended(dict, earlier))),
                    None => Some((entries.last().0, dict)),
                },
                None => before,
            }
        } else {
            before
        }
    }
}

/// `doc` with every entry of kind `Other` put in under its id, in order.
pub open spec fn copied(doc: Document, entries: Seq<IndirectObject>) -> Document
    decreases entries.len(),
{
    if entries.len() == 0 {
        doc
    } else if entry_kind(entries.last()) == ObjectKind::Other {
        inserted(copied(doc, entries.drop_last()), entries.last().0, entries.last().1)
    } else {
        copied(doc, entries.drop_last())
    }
}

/// A page dictionary with its `Parent` set to `root`.
pub open spec fn page_under(dict: Dictionary, root: ObjectId) -> Object {
    dictionary_object(entry_set(dict, "Parent"@, reference_object(root)))
}

/// `doc` with every page that is a dictionary put in under its id, its
/// `Parent` set to `root`.
pub open spec fn parented(doc: Document, pages: Seq<IndirectObject>, root: ObjectId) -> Document
    decreases pages.len(),
{
    if pages.len() == 0 {
        doc
    } else {
        let before = parented(doc, pages.drop_last(), root);
        match dictionary_of(pages.last().1) {
            Some(dict) => inserted(before, pages.last().0, page_under(dict, root)),
            None => before,
        }
    }
}

/// References to the pages, in their order.
pub open spec fn kid_list(pages: Seq<IndirectObject>) -> Seq<Object> {
    Seq::new(pages.len(), |i: int| reference_object(pages[i].0))
}

/// The one page tree node as the merger writes it: `dict` with `Kids` the
/// references to the pages, and without a `Count`, which the finalizer sets
/// when the objects have their last numbers.
pub open spec fn page_tree(dict: Dictionary, pages: Seq<IndirectObject>) -> Object {
    dictionary_object(
        entry_removed(entry_set(dict, "Kids"@, array_object(kid_list(pages))), "Count"@),
    )
}

/// The one catalog: `dict` with `Pages` set to `root` and without `Outlines`.
pub open spec fn catalog_over(dict: Dictionary, root: ObjectId) -> Object {
    dictionary_object(entry_removed(entry_set(dict, "Pages"@, reference_object(root)), "Outlines"@))
}

/// The version of the merged document.
pub open spec fn target_version() -> Seq<char> {
    "1.5"@
}

/// The merged document of renumbered sources, before it is finalized; or why
/// there is none.
///
/// An empty document gets the bookmarks, then every object that is neither
/// catalog, page tree node, page nor outline, then the pages with their new
/// parent, then the page tree node and the catalog, and at last its root.
pub open spec fn assembled(docs: Seq<Document>, style: Bookmark) -> Result<Document, MergeRunError> {
    let entries = all_entries(docs);
    let pages = all_pages(docs);
    let copies = copied(bookmarked(empty_document(target_version()), style, marks(docs)), entries);
    match pages_root(entries) {
        None => Err(MergeRunError::RootPageNotFound),
        Some((root, dict)) => match first_catalog(entries) {
            None => Err(MergeRunError::CatalogIsNone),
            Some(catalog) => {
                let tree = inserted(parented(copies, pages, root), root, page_tree(dict, pages));
                Ok(
                    trailer_entry_set(
                        match dictionary_of(catalog.1) {
                            Some(d) => inserted(tree, catalog.0, catalog_over(d, root)),
                            None => tree,
                        },
                        "Root"@,
                        catalog.0,
                    ),
                )
            },
        },
    }
}

/// `index_of` is the one place up to which no entry has the id, and at which,
/// if it is inside the map, the entry has it.
pub proof fn lemma_index_of(map: Seq<IndirectObject>, id: ObjectId, i: int)
    requires
        0 <= i <= map.len(),
        forall|j: int| 0 <= j < i ==> (#[trigger] map[j]).0 != id,
        i < map.len() ==> map[i].0 == id,
    ensures
        index_of(map, id) == i,
    decreases map.len(),
{
    if map.len() > 0 {
        let front = map.drop_last();
        if i < map.len() - 1 {
            assert(front[i] == map[i]);
            assert forall|j: int| 0 <= j < i implies (#[trigger] front[j]).0 != id by {
                assert(front[j] == map[j]);
            }
            lemma_index_of(front, id, i);
        } else {
            assert forall|j: int| 0 <= j < front.len() implies (#[trigger] front[j]).0 != id by {
                assert(front[j] == map[j]);
            }
            lemma_index_of(front, id, front.len() as int);
        }
    }
}

/// Records a page in the page map.
fn put(pages: &mut Vec<IndirectObject>, id: ObjectId, object: Object)
    ensures
        final(pages)@ == put_page(old(pages)@, id, object),
        final(pages)@.len() <= old(pages)@.len() + 1,
{
    let mut i: usize = 0;
    while i < pages.len()
        invariant
            i <= pages@.len(),
            pages@ == old(pages)@,
            forall|j: int| 0 <= j < i ==> (#[trigger] pages@[j]).0 != id,
        decreases pages@.len() - i,
    {
        if pages[i].0.0 == id.0 && pages[i].0.1 == id.1 {
            proof {
                lemma_index_of(pages@, id, i as int);
            }
            pages.set(i, (id, object));
            return ;
        }
        i += 1;
    }
    proof {
        lemma_index_of(pages@, id, i as int);
    }
    pages.push((id, object));
}

/// The number of objects of the first `k` sources.
pub open spec fn seen(docs: Seq<Document>, k: int) -> int {
    if k == 0 {
        0
    } else {
        doc_max_id(docs[k - 1]) as int
    }
}

/// Whether every object of a page map is of type `Page`.
pub open spec fn are_pages(pages: Seq<IndirectObject>) -> bool {
    forall|i: int| 0 <= i < pages.len() ==> kind_name_of((#[trigger] pages[i]).1) == page_word()
}

/// The place that `index_of` gives lies in the map or at its end.
proof fn lemma_index_of_range(map: Seq<IndirectObject>, id: ObjectId)
    ensures
        0 <= index_of(map, id) <= map.len(),
    decreases map.len(),
{
    if map.len() > 0 {
        lemma_index_of_range(map.drop_last(), id);
    }
}

/// A page map stays one of pages when a page is recorded in it.
proof fn lemma_put_keeps_pages(map: Seq<IndirectObject>, id: ObjectId, object: Object)
    requires
        are_pages(map),
        kind_name_of(object) == page_word(),
    ensures
        are_pages(put_page(map, id, object)),
{
    let after = put_page(map, id, object);
    lemma_index_of_range(map, id);
    assert forall|i: int| 0 <= i < after.len() implies kind_name_of((#[trigger] after[i]).1)
        == page_word() by {
        if index_of(map, id) < map.len() {
            if i != index_of(map, id) {
                assert(after[i] == map[i]);
            }
        } else {
            if i < map.len() {
                assert(after[i] == map[i]);
            }
        }
    }
}

/// A tame document stays tame when an object that claims no pages is put in.
proof fn lemma_insert_keeps_tame(before: Document, after: Document, object: Object)
    requires
        tame(before),
        !claims_pages(object),
        forall|j: int|
            0 <= j < object_list(after).len() ==> {
                ||| (#[trigger] object_list(after)[j]).1 == object
                ||| exists|i: int|
                    0 <= i < object_list(before).len() && #[trigger] object_list(before)[i]
                        == object_list(after)[j]
            },
    ensures
        tame(after),
{
    assert forall|j: int| 0 <= j < object_list(after).len() implies !claims_pages(
        (#[trigger] object_list(after)[j]).1,
    ) by {
        if object_list(after)[j].1 != object {
            let i = choose|i: int|
                0 <= i < object_list(before).len() && #[trigger] object_list(before)[i]
                    == object_list(after)[j];
            assert(!claims_pages(object_list(before)[i].1));
        }
    }
}

/// Gathers the pages and the objects of the sources, and gives `target` one
/// bookmark for each source but the first that has a page.
fn gather(docs: &Vec<Document>, style: &Bookmark, target: &mut Document) -> (r: (
    Vec<IndirectObject>,
    Vec<IndirectObject>,
))
    requires
        numbered(docs@),
        top_bookmarks(*old(target)) == Some(0nat),
    ensures
        r.0@ == all_pages(docs@),
        r.1@ == all_entries(docs@),
        are_pages(r.0@),
        r.0@.len() < ID_LIMIT,
        r.1@.len() < ID_LIMIT,
        *final(target) == bookmarked(*old(target), *style, marks(docs@)),
        object_list(*final(target)) == object_list(*old(target)),
        top_bookmarks(*final(target)) == Some(marks(docs@).len()),
        marks(docs@).len() < ID_LIMIT,
{
    let mut pages: Vec<IndirectObject> = Vec::new();
    let mut entries: Vec<IndirectObject> = Vec::new();
    let mut count: usize = 0;
    let mut k: usize = 0;
    while k < docs.len()
        invariant
            numbered(docs@),
            k <= docs@.len(),
            pages@ == all_pages(docs@.take(k as int)),
            are_pages(pages@),
            entries@ == all_entries(docs@.take(k as int)),
            count == marks(docs@.take(k as int)).len(),
            *target == bookmarked(*old(target), *style, marks(docs@.take(k as int))),
            top_bookmarks(*target) == Some(count as nat),
            object_list(*target) == object_list(*old(target)),
            entries@.len() == seen(docs@, k as int),
            pages@.len() <= seen(docs@, k as int),
            count <= seen(docs@, k as int),
            seen(docs@, k as int) < ID_LIMIT,
        decreases docs@.len() - k,
    {
        let doc = &docs[k];
        let ghost prefix = docs@.take(k as int);
        proof {
            assert(docs@.take(k + 1).drop_last() == prefix);
            assert(docs@.take(k + 1).last() == docs@[k as int]);
            assert(numbered_at(docs@, k as int));
            assert(start_of(docs@, k as int) == seen(docs@, k as int) + 1);
        }
        let ids = page_ids(doc);
        if k > 0 && ids.len() > 0 {
            count += 1;
            let mut title = String::from_str("Page_");
            let number = decimal(count);
            title.append(number.as_str());
            proof {
                let grown = marks(docs@.take(k + 1));
                assert(grown == marks(prefix).push(ids@[0]));
                assert(grown.drop_last() == marks(prefix));
                assert(title@ == mark_title(grown.len()));
            }
            add_bookmark(target, style, title, ids[0]);
        }
        let mut j: usize = 0;
        while j < ids.len()
            invariant
                j <= ids@.len(),
                ids@.len() <= object_list(*doc).len(),
                are_pages(pages@),
                forall|n: int|
                    0 <= n < ids@.len() ==> (resolved(*doc, #[trigger] ids@[n]) matches Some(page)
                        && kind_name_of(page) == page_word()),
                pages@ == pages_put(all_pages(prefix), *doc, ids@.take(j as int)),
                pages@.len() <= seen(docs@, k as int) + j,
                seen(docs@, k as int) + object_list(*doc).len() < ID_LIMIT,
            decreases ids@.len() - j,
        {
            proof {
                assert(ids@.take(j + 1).drop_last() == ids@.take(j as int));
                assert(ids@.take(j + 1).last() == ids@[j as int]);
            }
            match resolve(doc, ids[j]) {
                Some(object) => {
                    proof {
                        lemma_put_keeps_pages(pages@, ids@[j as int], object);
                    }
                    put(&mut pages, ids[j], object);
                },
                None => {},
            }
            j += 1;
        }
        proof {
            assert(ids@.take(j as int) == ids@);
        }
        let mut list = objects_of(doc);
        entries.append(&mut list);
        k += 1;
    }
    proof {
        assert(docs@.take(k as int) == docs@);
    }
    (pages, entries)
}

/// Puts the objects of kind `Other` into `target`, and finds the catalog and
/// the page tree root.
fn sort_entries(entries: &Vec<IndirectObject>, target: &mut Document) -> (r: (
    Option<IndirectObject>,
    Option<(ObjectId, Dictionary)>,
))
    ensures
        r.0 == first_catalog(entries@),
        r.1 == pages_root(entries@),
        *final(target) == copied(*old(target), entries@),
        object_list(*final(target)).len() <= object_list(*old(target)).len() + entries@.len(),
        top_bookmarks(*final(target)) == top_bookmarks(*old(target)),
        tame(*old(target)) ==> tame(*final(target)),
        r.0 matches Some(found) ==> entry_kind(found) == ObjectKind::Catalog,
{
    let mut catalog: Option<IndirectObject> = None;
    let mut root: Option<(ObjectId, Dictionary)> = None;
    let mut i: usize = 0;
    while i < entries.len()
        invariant
            i <= entries@.len(),
            catalog == first_catalog(entries@.take(i as int)),
            root == pages_root(entries@.take(i as int)),
            *target == copied(*old(target), entries@.take(i as int)),
            object_list(*target).len() <= object_list(*old(target)).len() + i,
            top_bookmarks(*target) == top_bookmarks(*old(target)),
            tame(*old(target)) ==> tame(*target),
            catalog matches Some(found) ==> entry_kind(found) == ObjectKind::Catalog,
        decreases entries@.len() - i,
    {
        proof {
            assert(entries@.take(i + 1).drop_last() == entries@.take(i as int));
            assert(entries@.take(i + 1).last() == entries@[i as int]);
        }
        let id = entries[i].0;
        let name = kind_name(&entries[i].1);
        match classify(name.as_slice()) {
            ObjectKind::Catalog => {
                if catalog.is_none() {
                    catalog = Some((id, copy_object(&entries[i].1)));
                }
            },
            ObjectKind::Pages => {
                match as_dictionary(&entries[i].1) {
                    Some(dict) => {
                        let mut dict = dict;
                        let merged = match root {
                            Some((first, earlier)) => {
                                extend(&mut dict, &earlier);
                                (first, dict)
                            },
                            None => (id, dict),
                        };
                        root = Some(merged);
                    },
                    None => {},
                }
            },
            ObjectKind::Page => {},
            ObjectKind::Outlines => {},
            ObjectKind::Outline => {},
            ObjectKind::Other => {
                let ghost before = *target;
                insert_object(target, id, copy_object(&entries[i].1));
                proof {
                    if tame(before) {
                        lemma_insert_keeps_tame(before, *target, entries@[i as int].1);
                    }
                }
            },
        }
        i += 1;
    }
    proof {
        assert(entries@.take(i as int) == entries@);
    }
    (catalog, root)
}

/// Puts the pages that are dictionaries into `target`, each with `root` as
/// its parent.
fn adopt_pages(pages: &Vec<IndirectObject>, root: ObjectId, target: &mut Document)
    requires
        are_pages(pages@),
    ensures
        *final(target) == parented(*old(target), pages@, root),
        object_list(*final(target)).len() <= object_list(*old(target)).len() + pages@.len(),
        top_bookmarks(*final(target)) == top_bookmarks(*old(target)),
        tame(*old(target)) ==> tame(*final(target)),
{
    proof {
        reveal_strlit("Parent");
        reveal_strlit("Type");
        reveal_strlit("Linearized");
        assert(!tells_type("Parent"@)) by {
            assert("Parent"@.len() == 6);
            assert("Type"@.len() == 4);
            assert("Linearized"@.len() == 10);
        }
    }
    let mut i: usize = 0;
    while i < pages.len()
        invariant
            i <= pages@.len(),
            *target == parented(*old(target), pages@.take(i as int), root),
            object_list(*target).len() <= object_list(*old(target)).len() + i,
            top_bookmarks(*target) == top_bookmarks(*old(target)),
            tame(*old(target)) ==> tame(*target),
            are_pages(pages@),
            !tells_type("Parent"@),
        decreases pages@.len() - i,
    {
        proof {
            assert(pages@.take(i + 1).drop_last() == pages@.take(i as int));
            assert(pages@.take(i + 1).last() == pages@[i as int]);
        }
        match as_dictionary(&pages[i].1) {
            Some(dict) => {
                let mut dict = dict;
                let ghost before = *target;
                set_entry(&mut dict, "Parent", make_reference(root));
                insert_object(target, pages[i].0, make_dictionary(dict));
                proof {
                    assert(kind_name_of(pages@[i as int].1) == page_word());
                    assert(page_word() != pages_word()) by {
                        assert(page_word().len() != pages_word().len());
                    }
                    if tame(before) {
                        lemma_insert_keeps_tame(before, *target, dictionary_object(dict));
                    }
                }
            },
            None => {},
        }
        i += 1;
    }
    proof {
        assert(pages@.take(i as int) == pages@);
    }
}

/// The references to the pages, in their order.
fn kids_of(pages: &Vec<IndirectObject>) -> (kids: Vec<Object>)
    ensures
        kids@ == kid_list(pages@),
{
    let mut kids: Vec<Object> = Vec::new();
    let mut i: usize = 0;
    while i < pages.len()
        invariant
            i <= pages@.len(),
            kids@ == Seq::new(i as nat, |j: int| reference_object(pages@[j].0)),
        decreases pages@.len() - i,
    {
        kids.push(make_reference(pages[i].0));
        i += 1;
    }
    kids
}

/// A document that can be finalized: its bookmarks stand at the top level,
/// there is room in the id space for its objects and for an outline, and no
/// object of it claims pages.
pub open spec fn ready(doc: Document) -> bool {
    &&& object_list(doc).len() <= 2 * ID_LIMIT
    &&& top_bookmarks(doc) matches Some(n) && n < ID_LIMIT
    &&& tame(doc)
}

/// A merged document before it is finalized, with the number of its pages.
pub struct Assembled {
    /// The document. Its page tree root has no `Count` yet.
    pub document: Document,
    /// The number of pages of the document.
    pub pages: u32,
}

/// Whether `r` is what merging renumbered sources gives: the merged document
/// with the number of pages of the page map, or why there is none.
pub open spec fn merging(
    docs: Seq<Document>,
    style: Bookmark,
    r: Result<Assembled, MergeRunError>,
) -> bool {
    match assembled(docs, style) {
        Ok(doc) => {
            &&& r matches Ok(found)
            &&& found.document == doc
            &&& found.pages == all_pages(docs).len()
            &&& ready(doc)
        },
        Err(e) => r matches Err(why) && why == e,
    }
}

/// Merges renumbered sources into one document with a single catalog and a
/// single, flat page tree.
///
/// The first catalog and the first page tree node give the ids of the merged
/// ones; the pages keep their ids and their order. Fails with
/// `RootPageNotFound` where no source has a page tree node that is a
/// dictionary, and with `CatalogIsNone` where there is such a node but no
/// catalog.
pub fn merge_graphs(docs: &Vec<Document>, style: &Bookmark) -> (r: Result<
    Assembled,
    MergeRunError,
>)
    requires
        numbered(docs@),
    ensures
        merging(docs@, *style, r),
{
    proof {
        reveal_strlit("Pages");
        reveal_strlit("Outlines");
        reveal_strlit("Type");
        reveal_strlit("Linearized");
        assert(!tells_type("Pages"@) && !tells_type("Outlines"@)) by {
            assert("Pages"@.len() == 5);
            assert("Outlines"@.len() == 8);
            assert("Type"@.len() == 4);
            assert("Linearized"@.len() == 10);
        }
    }
    let mut target = new_document("1.5");
    let (pages, entries) = gather(docs, style, &mut target);
    let (catalog, root) = sort_entries(&entries, &mut target);
    let (root, dict) = match root {
        Some(found) => found,
        None => {
            return Err(MergeRunError::RootPageNotFound);
        },
    };
    adopt_pages(&pages, root, &mut target);
    let catalog = match catalog {
        Some(found) => found,
        None => {
            return Err(MergeRunError::CatalogIsNone);
        },
    };
    let mut dict = dict;
    set_entry(&mut dict, "Kids", make_array(kids_of(&pages)));
    remove_entry(&mut dict, "Count");
    let ghost before = target;
    insert_object(&mut target, root, make_dictionary(dict));
    proof {
        lemma_insert_keeps_tame(before, target, dictionary_object(dict));
    }
    match as_dictionary(&catalog.1) {
        Some(found) => {
            let mut found = found;
            let ghost before = target;
            set_entry(&mut found, "Pages", make_reference(root));
            remove_entry(&mut found, "Outlines");
            insert_object(&mut target, catalog.0, make_dictionary(found));
            proof {
                assert(kind_of(kind_name_of(catalog.1)) == ObjectKind::Catalog);
                assert(catalog_word() != pages_word()) by {
                    assert(catalog_word().len() != pages_word().len());
                }
                lemma_insert_keeps_tame(before, target, dictionary_object(found));
            }
        },
        None => {},
    }
    set_trailer_entry(&mut target, "Root", catalog.0);
    Ok(Assembled { document: target, pages: pages.len() as u32 })
}

/// The finalized form of a merged document with `pages` pages: its objects
/// renumbered from 1 without gaps, its bookmarks written as an outline that
/// the catalog refers to, the `Count` of its page tree root set to the number
/// of pages, and its streams compressed.
pub open spec fn finalized(doc: Document, pages: u32) -> Document {
    let adjusted = zero_pages_adjusted(renumbered(doc, 1));
    compressed(
        page_tree_entry_set(
            match outline_root(adjusted) {
                Some(id) => catalog_entry_set(outlined(adjusted), "Outlines"@, id),
                None => outlined(adjusted),
            },
            "Pages"@,
            "Count"@,
            integer_object(pages),
        ),
    )
}

/// Finalizes a merged document: renumbers its objects from 1, repairs the
/// bookmarks that point at no page, writes the outline and hangs it into the
/// catalog, sets the number of pages in the page tree root, and compresses
/// the streams.
pub fn finalize(merged: Assembled) -> (r: Document)
    requires
        ready(merged.document),
    ensures
        r == finalized(merged.document, merged.pages),
{
    let Assembled { document, pages } = merged;
    let mut doc = document;
    renumber(&mut doc, 1);
    adjust_zero_pages(&mut doc);
    match build_outline(&mut doc) {
        Some(id) => {
            set_catalog_entry(&mut doc, "Outlines", id);
        },
        None => {},
    }
    set_page_tree_entry(&mut doc, "Pages", "Count", make_integer(pages));
    compress(&mut doc);
    doc
}

/// The bytes of a document, if it can be written: above its highest id there
/// must be room for the two numbers that the cross-reference table takes.
pub open spec fn written(doc: Document) -> Option<Seq<u8>> {
    if doc_max_id(doc) + 2 > u32::MAX {
        None
    } else {
        encoded(doc)
    }
}

/// Encodes a document as the bytes of a PDF file.
pub fn save_bytes(doc: Document) -> (r: Option<Vec<u8>>)
    ensures
        match r {
            Some(bytes) => written(doc) == Some(bytes@),
            None => written(doc).is_none(),
        },
{
    if max_id(&doc) >= u32::MAX - 1 {
        None
    } else {
        encode(doc)
    }
}

/// What merging decoded sources gives: the finalized merge of the documents
/// in one id space, or the failure of the first stage that fails.
pub open spec fn merged(decodes: Seq<Decoded>, style: Bookmark) -> Result<Document, MergeRunError> {
    match loaded(decodes) {
        Err(i) => Err(MergeRunError::CouldNotLoadInput(decodes[i].path)),
        Ok(docs) => match assembled(docs, style) {
            Err(e) => Err(e),
            Ok(doc) => Ok(finalized(doc, all_pages(docs).len() as u32)),
        },
    }
}

/// Merges decoded sources into one finalized document.
///
/// The sources take their place in the merged document in the order given.
/// `style` gives the colour and the format of the bookmarks: one is made for
/// each source but the first that has a page, titled `Page_1`, `Page_2` and so
/// on, and points at the first page of its source.
pub fn merge_decoded(decodes: Vec<Decoded>, style: &Bookmark) -> (r: Result<
    Document,
    MergeRunError,
>)
    ensures
        r == merged(decodes@, *style),
{
    let docs = match number_sources(decodes) {
        Ok(docs) => docs,
        Err(e) => {
            return Err(e);
        },
    };
    match merge_graphs(&docs, style) {
        Ok(found) => Ok(finalize(found)),
        Err(e) => Err(e),
    }
}

/// Decodes the sources and merges them into one finalized document.
///
/// What a source decodes to is for the decoder to say; `merge_decoded` says
/// what becomes of each answer. Here it holds that the result is the merge of
/// some decoding of the inputs: a failure to load that names one of the
/// inputs, a failure of the merge, or the finalized merge of one document for
/// each input.
pub fn gen_pdf(inputs: &Vec<Source>, style: &Bookmark) -> (r: Result<Document, MergeRunError>)
    ensures
        exists|decodes: Seq<Decoded>| #[trigger]
            decoded_from(decodes, inputs@) && r == merged(decodes, *style),
{
    let decodes = decode_sources(inputs);
    let ghost given = decodes@;
    let r = merge_decoded(decodes, style);
    assert(decoded_from(given, inputs@) && r == merged(given, *style));
    r
}

} // verus!

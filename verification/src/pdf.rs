//! The interface to `lopdf`, which decodes, stores and encodes PDF objects.
//!
//! Documents, objects and dictionaries are values that this library carries
//! but does not look into. Every function below reaches into `lopdf` for one
//! thing; its contract is taken on trust. What a call returns is given a name,
//! so that the contracts of the merger can say exactly which calls built a
//! document. What a file decodes to has no name: the decoder may answer
//! differently from call to call.
use vstd::prelude::*;

verus! {

/// `lopdf::Document`: an object map, a trailer and a list of bookmarks.
#[verifier::external_type_specification]
#[verifier::external_body]
pub struct ExDocument(lopdf::Document);

/// `lopdf::Object`: one PDF object.
#[verifier::external_type_specification]
#[verifier::external_body]
pub struct ExObject(lopdf::Object);

/// `lopdf::Dictionary`: an ordered map from keys to objects.
#[verifier::external_type_specification]
#[verifier::external_body]
pub struct ExDictionary(lopdf::Dictionary);

/// `lopdf::Bookmark`: an outline entry before it is written as objects.
#[verifier::external_type_specification]
#[verifier::external_body]
pub struct ExBookmark(lopdf::Bookmark);

/// `lopdf::Error`: why a document could not be decoded.
#[verifier::external_type_specification]
#[verifier::external_body]
pub struct ExError(lopdf::Error);

/// The largest number that `renumber` may give to an object: `lopdf` counts
/// the pages of the document in an `i32` while it renumbers.
pub const RENUMBER_LIMIT: u32 = 0x7fff_ffff;

// ---------------------------------------------------------------------------
// What a document holds.
// ---------------------------------------------------------------------------

/// The objects of a document with their ids, by ascending id.
pub uninterp spec fn object_list(doc: lopdf::Document) -> Seq<((u32, u16), lopdf::Object)>;

/// The ids of the pages of a document, as `Document::page_iter` enumerates
/// them.
pub uninterp spec fn page_list(doc: lopdf::Document) -> Seq<(u32, u16)>;

/// The field `max_id` of a document.
pub uninterp spec fn doc_max_id(doc: lopdf::Document) -> u32;

/// The object that `Document::get_object` finds under an id, references followed.
pub uninterp spec fn resolved(doc: lopdf::Document, id: (u32, u16)) -> Option<lopdf::Object>;

/// The number of bookmarks of a document all of whose bookmarks stand at the
/// top level and were added one by one; `None` for any other document.
pub uninterp spec fn top_bookmarks(doc: lopdf::Document) -> Option<nat>;

/// Whether some entry of `list` has the id `id`.
pub open spec fn lists_id(list: Seq<((u32, u16), lopdf::Object)>, id: (u32, u16)) -> bool {
    exists|i: int| 0 <= i < list.len() && (#[trigger] list[i]).0 == id
}

// ---------------------------------------------------------------------------
// Objects and dictionaries.
// ---------------------------------------------------------------------------

/// The `Type` that `Dictionary::get_type` reads from the dictionary of an
/// object (its own, or that of a stream); empty where there is none.
pub uninterp spec fn kind_name_of(object: lopdf::Object) -> Seq<u8>;

/// The dictionary that an object is, if it is one.
pub uninterp spec fn dictionary_of(object: lopdf::Object) -> Option<lopdf::Dictionary>;

/// Whether a dictionary holds a key.
pub uninterp spec fn holds_entry(dict: lopdf::Dictionary, key: Seq<char>) -> bool;

/// The bytes of `Pages`, the type of a page tree node.
pub open spec fn pages_word() -> Seq<u8> {
    seq![80u8, 97u8, 103u8, 101u8, 115u8]
}

/// The bytes of `Page`, the type of a page.
pub open spec fn page_word() -> Seq<u8> {
    seq![80u8, 97u8, 103u8, 101u8]
}

/// Whether an object is a page tree node that says how many pages it holds:
/// a dictionary of type `Pages` with a `Count`.
pub open spec fn claims_pages(object: lopdf::Object) -> bool {
    &&& kind_name_of(object) == pages_word()
    &&& dictionary_of(object) matches Some(dict)
    &&& holds_entry(dict, "Count"@)
}

/// Whether no object of a document claims pages. `lopdf` sizes its lists of
/// pages by these claims, which a file can make as large as it likes.
pub open spec fn tame(doc: lopdf::Document) -> bool {
    forall|i: int|
        0 <= i < object_list(doc).len() ==> !claims_pages((#[trigger] object_list(doc)[i]).1)
}

/// Whether a key is one of the two by which `Dictionary::get_type` tells the
/// type of a dictionary.
pub open spec fn tells_type(key: Seq<char>) -> bool {
    key == "Type"@ || key == "Linearized"@
}

/// The object `Object::Dictionary` around a dictionary.
pub uninterp spec fn dictionary_object(dict: lopdf::Dictionary) -> lopdf::Object;

/// The object `Object::Reference` to an id.
pub uninterp spec fn reference_object(id: (u32, u16)) -> lopdf::Object;

/// The object `Object::Integer` of a number.
pub uninterp spec fn integer_object(value: u32) -> lopdf::Object;

/// The object `Object::Array` of a list of objects.
pub uninterp spec fn array_object(items: Seq<lopdf::Object>) -> lopdf::Object;

/// A dictionary after `Dictionary::set` of a key to a value.
pub uninterp spec fn entry_set(
    dict: lopdf::Dictionary,
    key: Seq<char>,
    value: lopdf::Object,
) -> lopdf::Dictionary;

/// A dictionary after `Dictionary::remove` of a key.
pub uninterp spec fn entry_removed(dict: lopdf::Dictionary, key: Seq<char>) -> lopdf::Dictionary;

/// A dictionary after `Dictionary::extend` with another.
pub uninterp spec fn extended(
    dict: lopdf::Dictionary,
    other: lopdf::Dictionary,
) -> lopdf::Dictionary;

// ---------------------------------------------------------------------------
// Documents made from documents.
// ---------------------------------------------------------------------------

/// The document that `Document::with_version` makes.
pub uninterp spec fn empty_document(version: Seq<char>) -> lopdf::Document;

/// A document after `Document::renumber_objects_with`.
pub uninterp spec fn renumbered(doc: lopdf::Document, start: u32) -> lopdf::Document;

/// A document after an object was put into its object map under an id.
pub uninterp spec fn inserted(
    doc: lopdf::Document,
    id: (u32, u16),
    object: lopdf::Object,
) -> lopdf::Document;

/// A document after a key of its trailer was set to a reference.
pub uninterp spec fn trailer_entry_set(
    doc: lopdf::Document,
    key: Seq<char>,
    id: (u32, u16),
) -> lopdf::Document;

/// A document after `Document::add_bookmark` of a top-level bookmark without
/// children, with the colour and the format of `style`.
pub uninterp spec fn with_bookmark(
    doc: lopdf::Document,
    style: lopdf::Bookmark,
    title: Seq<char>,
    page: (u32, u16),
) -> lopdf::Document;

/// A document after `Document::adjust_zero_pages`.
pub uninterp spec fn zero_pages_adjusted(doc: lopdf::Document) -> lopdf::Document;

/// A document after `Document::build_outline`.
pub uninterp spec fn outlined(doc: lopdf::Document) -> lopdf::Document;

/// The id that `Document::build_outline` returns for a document.
pub uninterp spec fn outline_root(doc: lopdf::Document) -> Option<(u32, u16)>;

/// A document after a key of its page tree root was set to a value.
pub uninterp spec fn page_tree_entry_set(
    doc: lopdf::Document,
    link: Seq<char>,
    key: Seq<char>,
    value: lopdf::Object,
) -> lopdf::Document;

/// A document after a key of its catalog was set to a reference.
pub uninterp spec fn catalog_entry_set(
    doc: lopdf::Document,
    key: Seq<char>,
    id: (u32, u16),
) -> lopdf::Document;

/// A document after `Document::compress`.
pub uninterp spec fn compressed(doc: lopdf::Document) -> lopdf::Document;

/// The bytes that `Document::save_to` writes for a document, if it succeeds.
pub uninterp spec fn encoded(doc: lopdf::Document) -> Option<Seq<u8>>;

// ---------------------------------------------------------------------------
// The calls.
// ---------------------------------------------------------------------------

/// `Document::with_version`: a document without objects and without bookmarks.
#[verifier::external_body]
pub(crate) fn new_document(version: &str) -> (doc: lopdf::Document)
    ensures
        doc == empty_document(version@),
        object_list(doc).len() == 0,
        top_bookmarks(doc) == Some(0nat),
{
    lopdf::Document::with_version(version)
}

/// `Document::load_mem`: a document that the bytes encode, or an error.
/// Nothing is said of the document: `lopdf` reads the objects of a file on
/// several threads, and where a file gives an object twice, the one that is
/// kept may differ from call to call.
#[verifier::external_body]
pub(crate) fn decode(bytes: &[u8]) -> (r: Result<lopdf::Document, lopdf::Error>) {
    lopdf::Document::load_mem(bytes)
}

/// The length of the object map of a document.
#[verifier::external_body]
pub(crate) fn object_count(doc: &lopdf::Document) -> (n: usize)
    ensures
        n == object_list(*doc).len(),
{
    doc.objects.len()
}

/// `Document::renumber_objects_with`: the objects get the numbers from `start`
/// on, one each, and `max_id` becomes the last of them. No object is added,
/// and the bookmarks stay as many as they were.
///
/// `lopdf` gathers the pages in a list that it sizes by the `Count` entries
/// of the page tree nodes, and fails where they claim more than memory holds.
/// So the call is made on tame documents only, where no node has a `Count`
/// and the list is sized by the number of entries of the page tree.
#[verifier::external_body]
pub(crate) fn renumber(doc: &mut lopdf::Document, start: u32)
    requires
        1 <= start,
        start + object_list(*old(doc)).len() <= RENUMBER_LIMIT,
        tame(*old(doc)),
    ensures
        *final(doc) == renumbered(*old(doc), start),
        object_list(*final(doc)).len() <= object_list(*old(doc)).len(),
        doc_max_id(*final(doc)) + 1 == start + object_list(*final(doc)).len(),
        forall|i: int|
            0 <= i < object_list(*final(doc)).len() ==> start <= (#[trigger] object_list(
                *final(doc),
            )[i]).0.0 <= doc_max_id(*final(doc)),
        top_bookmarks(*final(doc)) == top_bookmarks(*old(doc)),
{
    doc.renumber_objects_with(start)
}

/// The field `max_id`.
#[verifier::external_body]
pub(crate) fn max_id(doc: &lopdf::Document) -> (n: u32)
    ensures
        n == doc_max_id(*doc),
{
    doc.max_id
}

/// `Document::page_iter`, walked to its end: the page ids in page order.
/// Each is the id of an object of the document, under which `get_object`
/// finds an object of type `Page`, and there are no more of them than
/// objects. The pages are taken one by one,
/// so that no list is sized by what the page tree claims to hold.
#[verifier::external_body]
pub(crate) fn page_ids(doc: &lopdf::Document) -> (ids: Vec<(u32, u16)>)
    ensures
        ids@ == page_list(*doc),
        ids@.len() <= object_list(*doc).len(),
        forall|j: int|
            0 <= j < ids@.len() ==> {
                &&& lists_id(object_list(*doc), #[trigger] ids@[j])
                &&& resolved(*doc, ids@[j]) matches Some(page)
                &&& kind_name_of(page) == page_word()
            },
{
    let mut ids = Vec::new();
    let mut pages = doc.page_iter();
    while let Some(id) = pages.next() {
        ids.push(id);
    }
    ids
}

/// `Document::get_object`: a copy of the object under an id, references followed.
#[verifier::external_body]
pub(crate) fn resolve(doc: &lopdf::Document, id: (u32, u16)) -> (r: Option<lopdf::Object>)
    ensures
        r == resolved(*doc, id),
{
    doc.get_object(id).ok().cloned()
}

/// The object map of a document as a list of copies, by ascending id.
#[verifier::external_body]
pub(crate) fn objects_of(doc: &lopdf::Document) -> (list: Vec<((u32, u16), lopdf::Object)>)
    ensures
        list@ == object_list(*doc),
{
    doc.objects.clone().into_iter().collect()
}

/// `Dictionary::get_type` on the dictionary of an object or of a stream, with
/// no bytes where the object has no dictionary or the dictionary no type.
#[verifier::external_body]
pub(crate) fn kind_name(object: &lopdf::Object) -> (name: Vec<u8>)
    ensures
        name@ == kind_name_of(*object),
{
    match object {
        lopdf::Object::Dictionary(dict) => dict.get_type().unwrap_or(b"").to_vec(),
        lopdf::Object::Stream(stream) => stream.dict.get_type().unwrap_or(b"").to_vec(),
        _ => Vec::new(),
    }
}

/// `Object::as_dict`: a copy of the dictionary that the object is, if it is
/// one; the object is then `Object::Dictionary` around it.
#[verifier::external_body]
pub(crate) fn as_dictionary(object: &lopdf::Object) -> (r: Option<lopdf::Dictionary>)
    ensures
        r == dictionary_of(*object),
        r matches Some(dict) ==> *object == dictionary_object(dict),
{
    object.as_dict().ok().cloned()
}

/// `Object::clone`.
#[verifier::external_body]
pub(crate) fn copy_object(object: &lopdf::Object) -> (r: lopdf::Object)
    ensures
        r == *object,
{
    object.clone()
}

/// `Object::Dictionary`: the object that is the dictionary.
#[verifier::external_body]
pub(crate) fn make_dictionary(dict: lopdf::Dictionary) -> (r: lopdf::Object)
    ensures
        r == dictionary_object(dict),
        dictionary_of(r) == Some(dict),
{
    lopdf::Object::Dictionary(dict)
}

/// `Object::Reference`.
#[verifier::external_body]
pub(crate) fn make_reference(id: (u32, u16)) -> (r: lopdf::Object)
    ensures
        r == reference_object(id),
{
    lopdf::Object::Reference(id)
}

/// `Object::from` of an unsigned number: an `Object::Integer`.
#[verifier::external_body]
pub(crate) fn make_integer(value: u32) -> (r: lopdf::Object)
    ensures
        r == integer_object(value),
{
    lopdf::Object::from(value)
}

/// `Object::Array`.
#[verifier::external_body]
pub(crate) fn make_array(items: Vec<lopdf::Object>) -> (r: lopdf::Object)
    ensures
        r == array_object(items@),
{
    lopdf::Object::Array(items)
}

/// `Dictionary::set`. The type of the dictionary stays, unless the key is one
/// that tells it.
#[verifier::external_body]
pub(crate) fn set_entry(dict: &mut lopdf::Dictionary, key: &str, value: lopdf::Object)
    ensures
        *final(dict) == entry_set(*old(dict), key@, value),
        !tells_type(key@) ==> kind_name_of(dictionary_object(*final(dict))) == kind_name_of(
            dictionary_object(*old(dict)),
        ),
{
    dict.set(key, value)
}

/// `Dictionary::remove`: the dictionary holds the key no more. Its type
/// stays, unless the key is one that tells it.
#[verifier::external_body]
pub(crate) fn remove_entry(dict: &mut lopdf::Dictionary, key: &str)
    ensures
        *final(dict) == entry_removed(*old(dict), key@),
        !holds_entry(*final(dict), key@),
        !tells_type(key@) ==> kind_name_of(dictionary_object(*final(dict))) == kind_name_of(
            dictionary_object(*old(dict)),
        ),
{
    dict.remove(key.as_bytes());
}

/// `Dictionary::extend`.
#[verifier::external_body]
pub(crate) fn extend(dict: &mut lopdf::Dictionary, other: &lopdf::Dictionary)
    ensures
        *final(dict) == extended(*old(dict), *other),
{
    dict.extend(other)
}

/// Puts an object into the object map of a document. Under an id that the
/// map holds, the object takes the place of the one that was there; under a
/// new id the map grows by the object. All other objects stay. The bookmarks
/// stay.
#[verifier::external_body]
pub(crate) fn insert_object(doc: &mut lopdf::Document, id: (u32, u16), object: lopdf::Object)
    ensures
        *final(doc) == inserted(*old(doc), id, object),
        object_list(*final(doc)).len() <= object_list(*old(doc)).len() + 1,
        forall|i: int|
            0 <= i < object_list(*old(doc)).len() && (#[trigger] object_list(*old(doc))[i]).0 == id
                ==> object_list(*final(doc)) == object_list(*old(doc)).update(i, (id, object)),
        forall|j: int|
            0 <= j < object_list(*final(doc)).len() ==> {
                ||| (#[trigger] object_list(*final(doc))[j]).1 == object
                ||| exists|i: int|
                    0 <= i < object_list(*old(doc)).len() && #[trigger] object_list(*old(doc))[i]
                        == object_list(*final(doc))[j]
            },
        top_bookmarks(*final(doc)) == top_bookmarks(*old(doc)),
{
    doc.objects.insert(id, object);
}

/// `Dictionary::set` on the trailer of a document: sets a key to a reference.
/// The objects and the bookmarks stay.
#[verifier::external_body]
pub(crate) fn set_trailer_entry(doc: &mut lopdf::Document, key: &str, id: (u32, u16))
    ensures
        *final(doc) == trailer_entry_set(*old(doc), key@, id),
        object_list(*final(doc)) == object_list(*old(doc)),
        top_bookmarks(*final(doc)) == top_bookmarks(*old(doc)),
{
    doc.trailer.set(key, id)
}

/// `Document::add_bookmark` at the top level, of the bookmark that
/// `Bookmark::new` makes of the title, the page, and the colour and the format
/// of `style`: a bookmark without children. The objects stay.
#[verifier::external_body]
pub(crate) fn add_bookmark(
    doc: &mut lopdf::Document,
    style: &lopdf::Bookmark,
    title: String,
    page: (u32, u16),
)
    requires
        top_bookmarks(*old(doc)) matches Some(n) && n < u32::MAX,
    ensures
        *final(doc) == with_bookmark(*old(doc), *style, title@, page),
        object_list(*final(doc)) == object_list(*old(doc)),
        top_bookmarks(*final(doc)) == Some((top_bookmarks(*old(doc))->0 + 1) as nat),
{
    doc.add_bookmark(lopdf::Bookmark::new(title, style.color, style.format, page), None);
}

/// `Document::adjust_zero_pages`. The bookmarks stay as many as they were,
/// and so does `max_id`.
#[verifier::external_body]
pub(crate) fn adjust_zero_pages(doc: &mut lopdf::Document)
    requires
        top_bookmarks(*old(doc)).is_some(),
    ensures
        *final(doc) == zero_pages_adjusted(*old(doc)),
        top_bookmarks(*final(doc)) == top_bookmarks(*old(doc)),
        doc_max_id(*final(doc)) == doc_max_id(*old(doc)),
{
    doc.adjust_zero_pages()
}

/// `Document::build_outline`: writes the bookmarks as objects with fresh ids
/// above `max_id`, one for the outline and two for each bookmark, and returns
/// the outline's id, or nothing where there is no bookmark.
#[verifier::external_body]
pub(crate) fn build_outline(doc: &mut lopdf::Document) -> (r: Option<(u32, u16)>)
    requires
        top_bookmarks(*old(doc)) matches Some(n) && doc_max_id(*old(doc)) + 1 + 2 * n <= u32::MAX,
    ensures
        *final(doc) == outlined(*old(doc)),
        r == outline_root(*old(doc)),
        r.is_some() == (top_bookmarks(*old(doc))->0 > 0),
{
    doc.build_outline()
}

/// `Dictionary::set` on the dictionary that the catalog names under `link`:
/// sets a key of the page tree root, and does nothing where the document has
/// no catalog or the catalog names no dictionary there.
#[verifier::external_body]
pub(crate) fn set_page_tree_entry(
    doc: &mut lopdf::Document,
    link: &str,
    key: &str,
    value: lopdf::Object,
)
    ensures
        *final(doc) == page_tree_entry_set(*old(doc), link@, key@, value),
{
    if let Ok(catalog) = doc.catalog() {
        if let Ok(id) = catalog.get(link.as_bytes()).and_then(lopdf::Object::as_reference) {
            if let Ok(tree) = doc.get_dictionary_mut(id) {
                tree.set(key, value);
            }
        }
    }
}

/// `Dictionary::set` on `Document::catalog_mut`: sets a key of the catalog to a
/// reference, and does nothing where the document has no catalog.
#[verifier::external_body]
pub(crate) fn set_catalog_entry(doc: &mut lopdf::Document, key: &str, id: (u32, u16))
    ensures
        *final(doc) == catalog_entry_set(*old(doc), key@, id),
{
    if let Ok(catalog) = doc.catalog_mut() {
        catalog.set(key, id);
    }
}

/// `Document::compress`.
#[verifier::external_body]
pub(crate) fn compress(doc: &mut lopdf::Document)
    ensures
        *final(doc) == compressed(*old(doc)),
{
    doc.compress()
}

/// `Document::save_to` into a buffer: the bytes of the document, or nothing
/// where writing failed. The writer takes up to two numbers above `max_id`.
#[verifier::external_body]
pub(crate) fn encode(doc: lopdf::Document) -> (r: Option<Vec<u8>>)
    requires
        doc_max_id(doc) + 2 <= u32::MAX,
    ensures
        match r {
            Some(bytes) => encoded(doc) == Some(bytes@),
            None => encoded(doc).is_none(),
        },
{
    let mut doc = doc;
    let mut bytes = Vec::new();
    match doc.save_to(&mut bytes) {
        Ok(_) => Some(bytes),
        Err(_) => None,
    }
}

} // verus!

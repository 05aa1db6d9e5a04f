//! What holds of every merge.
use vstd::prelude::*;
use lopdf::Document;
use lopdf::{Bookmark, Dictionary, Object};
use crate::errors::MergeRunError;
use crate::merger::{
    all_pages, assembled, finalized, kid_list, loaded, marks, merged, next_start, numbered,
    numbered_at, page_tree, pages_put, put_page, start_of, Decoded, IndirectObject, ObjectId,
};
use crate::pdf::{
    array_object, dictionary_object, entry_removed, entry_set, lists_id, object_list, page_list,
    reference_object, resolved,
};

verus! {

/// Every source enumerates each of its pages once, and every page it
/// enumerates is one of its objects.
pub open spec fn pages_sound(docs: Seq<Document>) -> bool {
    forall|k: int|
        0 <= k < docs.len() ==> {
            &&& (#[trigger] page_list(docs[k])).no_duplicates()
            &&& forall|j: int|
                0 <= j < page_list(docs[k]).len() ==> {
                    &&& lists_id(object_list(docs[k]), #[trigger] page_list(docs[k])[j])
                    &&& resolved(docs[k], page_list(docs[k])[j]).is_some()
                }
        }
}

/// The page ids of all sources: those of the first, then those of the second,
/// and so on.
pub open spec fn all_page_ids(docs: Seq<Document>) -> Seq<ObjectId>
    decreases docs.len(),
{
    if docs.len() == 0 {
        Seq::empty()
    } else {
        all_page_ids(docs.drop_last()) + page_list(docs.last())
    }
}

/// The number of pages of all sources together.
pub open spec fn page_total(docs: Seq<Document>) -> nat
    decreases docs.len(),
{
    if docs.len() == 0 {
        0
    } else {
        page_total(docs.drop_last()) + page_list(docs.last()).len()
    }
}

/// The ids of a page map, in its order.
pub open spec fn ids_of(pages: Seq<IndirectObject>) -> Seq<ObjectId> {
    Seq::new(pages.len(), |i: int| pages[i].0)
}

proof fn lemma_prefix_numbered(docs: Seq<Document>)
    requires
        docs.len() > 0,
        numbered(docs),
        pages_sound(docs),
    ensures
        numbered(docs.drop_last()),
        pages_sound(docs.drop_last()),
        start_of(docs, docs.len() - 1) == next_start(docs.drop_last()),
        next_start(docs.drop_last()) <= next_start(docs),
{
    let front = docs.drop_last();
    assert forall|k: int| 0 <= k < front.len() implies #[trigger] numbered_at(front, k) by {
        assert(numbered_at(docs, k));
        assert(front[k] == docs[k]);
        if k > 0 {
            assert(front[k - 1] == docs[k - 1]);
        }
    }
    assert forall|k: int| 0 <= k < front.len() implies {
        &&& (#[trigger] page_list(front[k])).no_duplicates()
        &&& forall|j: int|
            0 <= j < page_list(front[k]).len() ==> {
                &&& lists_id(object_list(front[k]), #[trigger] page_list(front[k])[j])
                &&& resolved(front[k], page_list(front[k])[j]).is_some()
            }
    } by {
        assert(front[k] == docs[k]);
        assert(page_list(docs[k]).no_duplicates());
    }
    assert(numbered_at(docs, docs.len() - 1));
    if front.len() > 0 {
        assert(front.last() == docs[docs.len() - 2]);
    }
}

/// No page of the sources has a number at or above the start of the next source.
proof fn lemma_page_ids_bounded(docs: Seq<Document>)
    requires
        numbered(docs),
        pages_sound(docs),
    ensures
        all_page_ids(docs).len() == page_total(docs),
        forall|i: int|
            0 <= i < all_page_ids(docs).len() ==> (#[trigger] all_page_ids(docs)[i]).0 < next_start(
                docs,
            ),
    decreases docs.len(),
{
    if docs.len() > 0 {
        let front = docs.drop_last();
        let last = docs.last();
        lemma_prefix_numbered(docs);
        lemma_page_ids_bounded(front);
        assert(numbered_at(docs, docs.len() - 1));
        assert forall|i: int| 0 <= i < all_page_ids(docs).len() implies (#[trigger] all_page_ids(
            docs,
        )[i]).0 < next_start(docs) by {
            if i < all_page_ids(front).len() {
                assert(all_page_ids(docs)[i] == all_page_ids(front)[i]);
            } else {
                let j = i - all_page_ids(front).len();
                assert(all_page_ids(docs)[i] == page_list(last)[j]);
                assert(lists_id(object_list(last), page_list(last)[j]));
            }
        }
    }
}

/// Pages that the map does not hold yet go to its end, in their order.
proof fn lemma_pages_put(map: Seq<IndirectObject>, doc: Document, ids: Seq<ObjectId>)
    requires
        ids.no_duplicates(),
        forall|j: int| 0 <= j < ids.len() ==> resolved(doc, #[trigger] ids[j]).is_some(),
        forall|i: int, j: int|
            0 <= i < map.len() && 0 <= j < ids.len() ==> (#[trigger] map[i]).0 != #[trigger] ids[j],
    ensures
        ids_of(pages_put(map, doc, ids)) == ids_of(map) + ids,
    decreases ids.len(),
{
    if ids.len() == 0 {
        assert(ids_of(map) + ids == ids_of(map));
    } else {
        let front = ids.drop_last();
        let id = ids.last();
        assert forall|j: int| 0 <= j < front.len() implies resolved(
            doc,
            #[trigger] front[j],
        ).is_some() by {
            assert(front[j] == ids[j]);
        }
        assert forall|i: int, j: int| 0 <= i < map.len() && 0 <= j < front.len() implies (
        #[trigger] map[i]).0 != #[trigger] front[j] by {
            assert(front[j] == ids[j]);
        }
        lemma_pages_put(map, doc, front);
        let before = pages_put(map, doc, front);
        assert(ids_of(before).len() == before.len());
        assert forall|i: int| 0 <= i < before.len() implies (#[trigger] before[i]).0 != id by {
            assert(ids_of(before)[i] == before[i].0);
            if i < map.len() {
                assert(ids_of(before)[i] == ids_of(map)[i]);
                assert(map[i].0 != ids[ids.len() - 1]);
            } else {
                assert(ids_of(before)[i] == front[i - map.len()]);
                assert(front[i - map.len()] == ids[i - map.len()]);
            }
        }
        crate::merger::lemma_index_of(before, id, before.len() as int);
        assert(resolved(doc, ids[ids.len() - 1]).is_some());
        let object = resolved(doc, id)->0;
        assert(pages_put(map, doc, ids) == put_page(before, id, object));
        assert(pages_put(map, doc, ids) == before.push((id, object)));
        assert(ids_of(before.push((id, object))) == ids_of(before).push(id));
        assert(ids_of(map) + ids == (ids_of(map) + front).push(id));
    }
}

/// The merged page order is the concatenation of the page orders of the
/// sources, and the merged page count is the sum of their page counts.
///
/// This is said of the page map, from which the merger writes `Kids` and
/// `Count` of the one page tree node (`page_tree`). It holds where the sources
/// share one id space, as `load_sources` leaves them, and each of them
/// enumerates every page once.
pub proof fn lemma_pages_concatenate(docs: Seq<Document>)
    requires
        numbered(docs),
        pages_sound(docs),
    ensures
        ids_of(all_pages(docs)) == all_page_ids(docs),
        all_pages(docs).len() == page_total(docs),
    decreases docs.len(),
{
    if docs.len() == 0 {
        assert(ids_of(all_pages(docs)) == all_page_ids(docs));
    } else {
        let front = docs.drop_last();
        let last = docs.last();
        lemma_prefix_numbered(docs);
        lemma_pages_concatenate(front);
        lemma_page_ids_bounded(front);
        lemma_page_ids_bounded(docs);
        let map = all_pages(front);
        let ids = page_list(last);
        assert(numbered_at(docs, docs.len() - 1));
        assert(page_list(docs[docs.len() - 1]).no_duplicates());
        assert forall|i: int, j: int| 0 <= i < map.len() && 0 <= j < ids.len() implies (
        #[trigger] map[i]).0 != #[trigger] ids[j] by {
            assert(ids_of(map)[i] == map[i].0);
            assert(all_page_ids(front)[i].0 < next_start(front));
            assert(lists_id(object_list(last), ids[j]));
        }
        lemma_pages_put(map, last, ids);
        assert(ids_of(all_pages(docs)).len() == all_pages(docs).len());
    }
}

/// References to the ids, in their order.
pub open spec fn references(ids: Seq<ObjectId>) -> Seq<Object> {
    Seq::new(ids.len(), |i: int| reference_object(ids[i]))
}

/// The page tree node of a merge names every page of every source once, in
/// the order of the sources and of their pages: its `Kids` are the references
/// to the page ids of the sources, one list after the other.
pub proof fn lemma_page_tree_lists_all_pages(docs: Seq<Document>, dict: Dictionary)
    requires
        numbered(docs),
        pages_sound(docs),
    ensures
        page_tree(dict, all_pages(docs)) == dictionary_object(
            entry_removed(
                entry_set(dict, "Kids"@, array_object(references(all_page_ids(docs)))),
                "Count"@,
            ),
        ),
{
    lemma_pages_concatenate(docs);
    let pages = all_pages(docs);
    assert(kid_list(pages) =~= references(all_page_ids(docs))) by {
        assert forall|i: int| 0 <= i < pages.len() implies pages[i].0 == all_page_ids(docs)[i] by {
            assert(ids_of(pages)[i] == pages[i].0);
        }
    }
}

/// The page count of a merge is the sum of the page counts of its sources:
/// where the sources are brought into one id space and merged, the finalized
/// document gets as its `Count` the number of all their pages.
pub proof fn lemma_merge_counts_all_pages(decodes: Seq<Decoded>, style: Bookmark)
    requires
        loaded(decodes) matches Ok(docs) && numbered(docs) && pages_sound(docs),
        assembled(loaded(decodes)->Ok_0, style) is Ok,
    ensures
        merged(decodes, style) == Ok::<Document, MergeRunError>(
            finalized(
                assembled(loaded(decodes)->Ok_0, style)->Ok_0,
                page_total(loaded(decodes)->Ok_0) as u32,
            ),
        ),
{
    lemma_pages_concatenate(loaded(decodes)->Ok_0);
}

/// Two sources with as many pages each give a merge of twice as many pages:
/// merging a document with itself doubles it.
pub proof fn lemma_two_copies_double_the_pages(first: Document, second: Document)
    requires
        numbered(seq![first, second]),
        pages_sound(seq![first, second]),
        page_list(first).len() == page_list(second).len(),
    ensures
        all_pages(seq![first, second]).len() == 2 * page_list(first).len(),
        ids_of(all_pages(seq![first, second])) == page_list(first) + page_list(second),
{
    let both = seq![first, second];
    lemma_pages_concatenate(both);
    assert(both.drop_last() == seq![first]);
    assert(seq![first].drop_last() == Seq::<Document>::empty());
    assert(both.last() == second);
    assert(seq![first].last() == first);
    assert(page_total(Seq::<Document>::empty()) == 0);
    assert(seq![first].len() == 1);
    assert(page_total(seq![first]) == page_total(seq![first].drop_last()) + page_list(
        seq![first].last(),
    ).len());
    assert(page_total(seq![first]) == page_list(first).len());
    assert(both.len() == 2);
    assert(page_total(both) == page_total(both.drop_last()) + page_list(both.last()).len());
    assert(all_page_ids(both) == all_page_ids(both.drop_last()) + page_list(both.last()));
    assert(all_page_ids(seq![first]) == all_page_ids(seq![first].drop_last()) + page_list(
        seq![first].last(),
    ));
    assert(all_page_ids(seq![first]) == page_list(first)) by {
        assert(all_page_ids(Seq::<Document>::empty()) + page_list(first) == page_list(first));
    }
}

/// A source without pages adds no page and no bookmark to a merge: the pages
/// and the bookmarks are those of the sources before it.
pub proof fn lemma_empty_source_adds_nothing(docs: Seq<Document>, doc: Document)
    requires
        page_list(doc).len() == 0,
    ensures
        all_pages(docs.push(doc)) == all_pages(docs),
        marks(docs.push(doc)) == marks(docs),
{
    assert(docs.push(doc).drop_last() == docs);
    assert(docs.push(doc).last() == doc);
}

} // verus!

//! The paged document itself. Listing the pages, removing pages and writing
//! out are the work of the `lopdf` crate; this file says what the rest of
//! the library takes on trust about it. Nothing here is proved.
//!
//! A document is opaque to the prover. Each operation on it is a function of
//! its arguments alone, so its result gets a name, and the contracts of the
//! library are stated over these names. What a name is on given values is
//! stated nowhere. In particular nothing is claimed about which pages
//! `delete_pages` leaves: the library lists the pages again after the call
//! and compares.
//!
//! Two of the operations do not come back from every document. Each has a
//! `requires` that leaves those documents out, and the library tests it
//! before the call.
//!
//! Loading is not here: the caller loads the document and hands it in.

use crate::tree::safe_to_delete;
use vstd::prelude::*;

verus! {

/// `lopdf::Document`, a document held in memory.
#[verifier::external_type_specification]
#[verifier::external_body]
pub struct ExDocument(lopdf::Document);

/// `lopdf::Error`, what loading reports.
#[verifier::external_type_specification]
#[verifier::external_body]
pub struct ExLoadError(lopdf::Error);

/// `std::io::Error`, what writing reports.
#[verifier::external_type_specification]
#[verifier::external_body]
pub struct ExWriteError(std::io::Error);

/// What `lopdf::Document::get_pages` lists for a document: the object
/// identifiers of its pages, in the order of their page numbers.
pub uninterp spec fn document_pages(doc: lopdf::Document) -> Seq<(u32, u16)>;

/// The number of entries of the document's map of objects.
pub uninterp spec fn object_count(doc: lopdf::Document) -> usize;

/// The document's field `max_id`, the highest object number in use.
pub uninterp spec fn document_max_id(doc: lopdf::Document) -> u32;

/// What the object `id` of the document names as its parent: where the
/// object is a dictionary whose entry `Parent` is a reference, that
/// reference; else nothing.
pub uninterp spec fn node_parent(doc: lopdf::Document, id: (u32, u16)) -> Option<(u32, u16)>;

/// What the object `id` of the document gives as its count: where the object
/// is a dictionary whose entry `Count` is an integer, that integer; else
/// nothing.
pub uninterp spec fn node_count(doc: lopdf::Document, id: (u32, u16)) -> Option<i64>;

/// The document that `lopdf::Document::delete_pages` leaves when it is asked
/// to delete the pages with the given numbers.
pub uninterp spec fn without_pages(doc: lopdf::Document, numbers: Seq<u32>) -> lopdf::Document;

/// The bytes that `lopdf::Document::save_to` writes for a document, or
/// nothing where it returns an error.
pub uninterp spec fn serialized(doc: lopdf::Document) -> Option<Seq<u8>>;

/// `Clone::clone` of `lopdf::Document`, which that crate derives field by
/// field: the copy holds what the document it was made from holds.
pub assume_specification[ <lopdf::Document as Clone>::clone ](doc: &lopdf::Document) -> (copy:
    lopdf::Document)
    ensures
        copy == *doc,
;

/// `lopdf::Document::delete_pages` removes pages by their numbers. What it
/// leaves depends on the document and on the numbers alone; `without_pages`
/// names it.
///
/// For each page it removes, it climbs from the page along the `Parent`
/// entries for as long as one is a reference to a dictionary, and takes 1
/// from each `Count` that is an integer. The climb has no bound of its own,
/// and the subtraction overflows at the least integer. The `requires` asks
/// that from every page the climb ends, and that every count on the way is
/// at least 2^32 above the least integer. That is enough: the call only
/// ever takes entries and objects away, so a climb during the call follows
/// the parents as they were before it and stops no later; and page numbers
/// have 32 bits, so no count is lowered more than 2^32 times.
pub assume_specification[ lopdf::Document::delete_pages ](
    doc: &mut lopdf::Document,
    page_numbers: &[u32],
)
    requires
        safe_to_delete(*old(doc)),
    ensures
        *final(doc) == without_pages(*old(doc), page_numbers@),
;

/// Calls `lopdf::Document::get_pages`, a map from page number to page
/// identifier, and hands out the identifiers in the order of the map, which
/// is that of the page numbers. `document_pages` names that list.
#[verifier::external_body]
pub(crate) fn page_ids(doc: &lopdf::Document) -> (ids: Vec<(u32, u16)>)
    ensures
        ids@ == document_pages(*doc),
{
    doc.get_pages().into_values().collect()
}

/// Reads the length of the public field `objects` of `lopdf::Document`, a
/// `BTreeMap`.
#[verifier::external_body]
pub(crate) fn count_objects(doc: &lopdf::Document) -> (count: usize)
    ensures
        count == object_count(*doc),
{
    doc.objects.len()
}

/// Reads the public field `max_id` of `lopdf::Document`.
#[verifier::external_body]
pub(crate) fn max_id(doc: &lopdf::Document) -> (id: u32)
    ensures
        id == document_max_id(*doc),
{
    doc.max_id
}

/// Looks the object up in the public field `objects` and reads it as
/// `delete_pages` does on its climb: `lopdf::Object::as_dict`, then
/// `lopdf::Dictionary::get` for `Parent`, then `lopdf::Object::as_reference`.
/// Any of them failing gives nothing.
#[verifier::external_body]
pub(crate) fn parent_of(doc: &lopdf::Document, id: (u32, u16)) -> (up: Option<(u32, u16)>)
    ensures
        up == node_parent(*doc, id),
{
    let node = doc.objects.get(&id)?;
    let entry = node.as_dict().ok()?.get(b"Parent").ok()?;
    entry.as_reference().ok()
}

/// Looks the object up in the public field `objects` and reads it as
/// `delete_pages` does on its climb: `lopdf::Object::as_dict`, then
/// `lopdf::Dictionary::get` for `Count`, then `lopdf::Object::as_i64`. Any of
/// them failing gives nothing.
#[verifier::external_body]
pub(crate) fn count_of(doc: &lopdf::Document, id: (u32, u16)) -> (count: Option<i64>)
    ensures
        count == node_count(*doc, id),
{
    let node = doc.objects.get(&id)?;
    let entry = node.as_dict().ok()?.get(b"Count").ok()?;
    entry.as_i64().ok()
}

/// Calls `lopdf::Document::save_to` with an empty vector as the target and
/// hands out the vector, or the error. The bytes depend on the document
/// alone; `serialized` names them. `save_to` adds 1 to `max_id`, so the
/// greatest value of `max_id` is left out.
#[verifier::external_body]
pub(crate) fn serialize(doc: lopdf::Document) -> (written: Result<Vec<u8>, std::io::Error>)
    requires
        document_max_id(doc) < u32::MAX,
    ensures
        match written {
            Ok(bytes) => serialized(doc) == Some(bytes@),
            Err(_) => serialized(doc) is None,
        },
{
    let mut doc = doc;
    let mut bytes = Vec::new();
    match doc.save_to(&mut bytes) {
        Ok(()) => Ok(bytes),
        Err(e) => Err(e),
    }
}

} // verus!

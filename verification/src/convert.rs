//! From stored documents to typed records.
//!
//! A target shape is a list of required fields, each with the name it has in
//! the document and the kind of value it must hold. A document conforms to a
//! shape when every required field is there and fits; fields that the shape
//! does not name are passed over. Converting a conforming document gives a
//! record whose fields are the document's; any other document is refused,
//! never half converted.

use crate::content::{blocks_of, BlockModel, ContentBlock};
use crate::document::{field, int32_of, text_list_of, text_of, views, Document, Fields, Json};
use crate::error::{ConversionError, Failure, Reason};
use vstd::prelude::*;

verus! {

/// The kinds of value that a field of a record can ask for.
pub enum Kind {
    /// A text.
    Text,
    /// An integer that a signed 32-bit number can hold.
    Int32,
    /// A list of texts.
    TextList,
    /// A list of content blocks.
    Blocks,
}

/// One required field: its name in the document and the kind of its value.
pub struct FieldSpec {
    pub key: Seq<char>,
    pub kind: Kind,
}

/// A required text field.
pub open spec fn text(key: Seq<char>) -> FieldSpec {
    FieldSpec { key, kind: Kind::Text }
}

/// A required 32-bit integer field.
pub open spec fn int32(key: Seq<char>) -> FieldSpec {
    FieldSpec { key, kind: Kind::Int32 }
}

/// A required field that lists texts.
pub open spec fn text_list(key: Seq<char>) -> FieldSpec {
    FieldSpec { key, kind: Kind::TextList }
}

/// A required field that lists content blocks.
pub open spec fn blocks(key: Seq<char>) -> FieldSpec {
    FieldSpec { key, kind: Kind::Blocks }
}

/// The value is of the kind.
pub open spec fn compatible(value: Json, kind: Kind) -> bool {
    match kind {
        Kind::Text => text_of(value) is Some,
        Kind::Int32 => int32_of(value) is Some,
        Kind::TextList => text_list_of(value) is Some,
        Kind::Blocks => blocks_of(value) is Some,
    }
}

/// The document has the required field, with a value of the required kind.
pub open spec fn fits(doc: Fields, spec: FieldSpec) -> bool {
    match field(doc, spec.key) {
        Some(value) => compatible(value, spec.kind),
        None => false,
    }
}

/// The document has every field that the shape requires, each with a value
/// of the required kind.
pub open spec fn conforms(doc: Fields, shape: Seq<FieldSpec>) -> bool {
    forall|i: int| 0 <= i < shape.len() ==> fits(doc, #[trigger] shape[i])
}

/// What is wrong with a field of that name: it is missing, or else mistyped.
pub open spec fn fault(doc: Fields, key: Seq<char>) -> Failure {
    Failure {
        field: key,
        reason: if field(doc, key) is None {
            Reason::Missing
        } else {
            Reason::Mismatch
        },
    }
}

/// The fault of the first required field, from index `from` on, that does not fit.
pub open spec fn first_fault_from(doc: Fields, shape: Seq<FieldSpec>, from: int) -> Option<Failure>
    decreases shape.len() - from,
{
    if from < 0 || from >= shape.len() {
        None
    } else if !fits(doc, shape[from]) {
        Some(fault(doc, shape[from].key))
    } else {
        first_fault_from(doc, shape, from + 1)
    }
}

/// The fault of the first required field, in the shape's order, that does not fit.
pub open spec fn first_fault(doc: Fields, shape: Seq<FieldSpec>) -> Option<Failure> {
    first_fault_from(doc, shape, 0)
}

/// The text of a required text field.
pub open spec fn text_at(doc: Fields, key: Seq<char>) -> Seq<char> {
    text_of(field(doc, key)->Some_0)->Some_0
}

/// The number of a required integer field.
pub open spec fn int32_at(doc: Fields, key: Seq<char>) -> int {
    int32_of(field(doc, key)->Some_0)->Some_0
}

/// The texts of a required field that lists texts.
pub open spec fn text_list_at(doc: Fields, key: Seq<char>) -> Seq<Seq<char>> {
    text_list_of(field(doc, key)->Some_0)->Some_0
}

/// The blocks of a required field that lists content blocks.
pub open spec fn blocks_at(doc: Fields, key: Seq<char>) -> Seq<BlockModel> {
    blocks_of(field(doc, key)->Some_0)->Some_0
}

/// Where the fields before `at` fit and the one at `at` does not, the first
/// fault is that field's.
pub proof fn lemma_first_fault_at(doc: Fields, shape: Seq<FieldSpec>, at: int)
    requires
        0 <= at < shape.len(),
        !fits(doc, shape[at]),
        forall|j: int| 0 <= j < at ==> fits(doc, #[trigger] shape[j]),
    ensures
        first_fault(doc, shape) == Some(fault(doc, shape[at].key)),
        !conforms(doc, shape),
{
    lemma_first_fault_reaches(doc, shape, 0, at);
}

proof fn lemma_first_fault_reaches(doc: Fields, shape: Seq<FieldSpec>, from: int, at: int)
    requires
        0 <= from <= at < shape.len(),
        !fits(doc, shape[at]),
        forall|j: int| from <= j < at ==> fits(doc, #[trigger] shape[j]),
    ensures
        first_fault_from(doc, shape, from) == Some(fault(doc, shape[at].key)),
    decreases at - from,
{
    if from < at {
        lemma_first_fault_reaches(doc, shape, from + 1, at);
    }
}

/// A document conforms to a shape exactly when no required field is at fault.
pub proof fn lemma_conforms_iff_no_fault(doc: Fields, shape: Seq<FieldSpec>)
    ensures
        conforms(doc, shape) <==> first_fault(doc, shape) is None,
{
    lemma_no_fault_from(doc, shape, 0);
}

proof fn lemma_no_fault_from(doc: Fields, shape: Seq<FieldSpec>, from: int)
    requires
        0 <= from <= shape.len(),
    ensures
        first_fault_from(doc, shape, from) is None <==> forall|j: int|
            from <= j < shape.len() ==> fits(doc, #[trigger] shape[j]),
    decreases shape.len() - from,
{
    if from < shape.len() {
        lemma_no_fault_from(doc, shape, from + 1);
    }
}

/// A type of record that stored documents are converted to.
pub trait Record: View + Sized {
    /// The fields that a document must have, in the order in which they are read.
    spec fn shape() -> Seq<FieldSpec>;

    /// The record that a conforming document gives: each field of the record
    /// with the value of the document's field that it is read from.
    spec fn built(doc: Fields) -> Self::V;

    /// Converts a document. A conforming document gives its record; any other
    /// gives the fault of the first required field that does not fit.
    fn convert(doc: &Document) -> (r: Result<Self, ConversionError>)
        ensures
            r is Ok <==> conforms(doc@, Self::shape()),
            r matches Ok(record) ==> record@ == Self::built(doc@),
            r matches Err(e) ==> first_fault(doc@, Self::shape()) == Some(e@),
    ;
}

/// The record that a document gives, if it conforms to the record's shape.
pub open spec fn decoded<T: Record>(doc: Fields) -> Option<T::V> {
    if conforms(doc, T::shape()) {
        Some(T::built(doc))
    } else {
        None
    }
}

/// [`decoded`] as a function value.
pub open spec fn decoder<T: Record>() -> spec_fn(Fields) -> Option<T::V> {
    |doc: Fields| decoded::<T>(doc)
}

/// The records of the documents that conform, in the documents' order.
pub open spec fn converted<T: Record>(docs: Seq<Fields>) -> Seq<T::V> {
    docs.filter_map(decoder::<T>())
}

/// The record of the first document, if there is a document and it conforms.
pub open spec fn first_converted<T: Record>(docs: Seq<Fields>) -> Option<T::V> {
    if docs.len() == 0 {
        None
    } else {
        decoded::<T>(docs[0])
    }
}

fn missing(key: &str) -> (e: ConversionError)
    ensures
        e@ == (Failure { field: key@, reason: Reason::Missing }),
{
    ConversionError { field: key.to_owned(), reason: Reason::Missing }
}

fn mismatch(key: &str) -> (e: ConversionError)
    ensures
        e@ == (Failure { field: key@, reason: Reason::Mismatch }),
{
    ConversionError { field: key.to_owned(), reason: Reason::Mismatch }
}

/// Reads a required text field.
pub fn text_field(doc: &Document, key: &str) -> (r: Result<String, ConversionError>)
    ensures
        r is Ok <==> fits(doc@, text(key@)),
        r matches Ok(s) ==> s@ == text_at(doc@, key@),
        r matches Err(e) ==> e@ == fault(doc@, key@),
{
    match doc.get(key) {
        None => Err(missing(key)),
        Some(value) => match value.as_text() {
            Some(s) => Ok(s.clone()),
            None => Err(mismatch(key)),
        },
    }
}

/// Reads a required 32-bit integer field.
pub fn int32_field(doc: &Document, key: &str) -> (r: Result<i32, ConversionError>)
    ensures
        r is Ok <==> fits(doc@, int32(key@)),
        r matches Ok(n) ==> n == int32_at(doc@, key@),
        r matches Err(e) ==> e@ == fault(doc@, key@),
{
    match doc.get(key) {
        None => Err(missing(key)),
        Some(value) => match value.as_i32() {
            Some(n) => Ok(n),
            None => Err(mismatch(key)),
        },
    }
}

/// Reads a required field that lists texts.
pub fn text_list_field(doc: &Document, key: &str) -> (r: Result<Vec<String>, ConversionError>)
    ensures
        r is Ok <==> fits(doc@, text_list(key@)),
        r matches Ok(texts) ==> texts.deep_view() == text_list_at(doc@, key@),
        r matches Err(e) ==> e@ == fault(doc@, key@),
{
    match doc.get(key) {
        None => Err(missing(key)),
        Some(value) => match value.as_text_list() {
            Some(texts) => Ok(texts),
            None => Err(mismatch(key)),
        },
    }
}

/// Reads a required field that lists content blocks.
pub fn blocks_field(doc: &Document, key: &str) -> (r: Result<Vec<ContentBlock>, ConversionError>)
    ensures
        r is Ok <==> fits(doc@, blocks(key@)),
        r matches Ok(list) ==> views(list@) == blocks_at(doc@, key@),
        r matches Err(e) ==> e@ == fault(doc@, key@),
{
    match doc.get(key) {
        None => Err(missing(key)),
        Some(value) => match ContentBlock::list_from_value(value) {
            Some(list) => Ok(list),
            None => Err(mismatch(key)),
        },
    }
}

/// Converts one document to a record of the type asked for. A document that
/// conforms to the type's shape gives its record; any other gives the fault
/// of the first required field that is missing or mistyped.
pub fn value_to_type<T: Record>(value: &Document) -> (r: Result<T, ConversionError>)
    ensures
        r is Ok <==> conforms(value@, T::shape()),
        r matches Ok(record) ==> Some(record@) == decoded::<T>(value@),
        r matches Err(e) ==> first_fault(value@, T::shape()) == Some(e@),
{
    T::convert(value)
}

/// Converts every document that conforms, in order, and leaves the others out.
pub fn convert_all<T: Record>(docs: &Vec<Document>) -> (records: Vec<T>)
    ensures
        views(records@) == converted::<T>(views(docs@)),
{
    let ghost all = views(docs@);
    let mut records: Vec<T> = Vec::new();
    let mut i: usize = 0;
    proof {
        assert(all.take(0) =~= Seq::<Fields>::empty());
        assert(views(records@) =~= converted::<T>(all.take(0)));
    }
    while i < docs.len()
        invariant
            i <= docs.len(),
            all == views(docs@),
            views(records@) == converted::<T>(all.take(i as int)),
        decreases docs.len() - i,
    {
        let ghost before = views(records@);
        proof {
            all.lemma_filter_map_take_succ(decoder::<T>(), i as int);
        }
        match value_to_type::<T>(&docs[i]) {
            Ok(record) => {
                records.push(record);
                assert(views(records@) =~= before + seq![record@]);
            },
            Err(_) => {},
        }
        i += 1;
    }
    assert(all.take(docs.len() as int) =~= all);
    records
}

/// The documents that do not conform, each by its place among the documents
/// and the fault of its first required field that does not fit, in order.
pub open spec fn refused<T: Record>(docs: Seq<Fields>) -> Seq<(int, Failure)>
    decreases docs.len(),
{
    if docs.len() == 0 {
        Seq::empty()
    } else {
        let before = refused::<T>(docs.drop_last());
        match first_fault(docs.last(), T::shape()) {
            Some(failure) => before.push((docs.len() - 1, failure)),
            None => before,
        }
    }
}

/// The views of a list of faults with their places.
pub open spec fn placed(found: Seq<(usize, ConversionError)>) -> Seq<(int, Failure)> {
    Seq::new(found.len(), |k: int| (found[k].0 as int, found[k].1@))
}

/// Tells which documents a conversion leaves out, and why: for a line in a
/// log. The records themselves are not kept.
pub fn refusals<T: Record>(docs: &Vec<Document>) -> (found: Vec<(usize, ConversionError)>)
    ensures
        placed(found@) == refused::<T>(views(docs@)),
{
    let ghost all = views(docs@);
    let mut found: Vec<(usize, ConversionError)> = Vec::new();
    let mut i: usize = 0;
    proof {
        assert(all.take(0) =~= Seq::<Fields>::empty());
        assert(placed(found@) =~= refused::<T>(all.take(0)));
    }
    while i < docs.len()
        invariant
            i <= docs.len(),
            all == views(docs@),
            placed(found@) == refused::<T>(all.take(i as int)),
        decreases docs.len() - i,
    {
        let ghost before = placed(found@);
        proof {
            assert(all.take(i + 1).drop_last() =~= all.take(i as int));
            assert(all.take(i + 1).last() == docs@[i as int]@);
            lemma_conforms_iff_no_fault(docs@[i as int]@, T::shape());
        }
        match value_to_type::<T>(&docs[i]) {
            Ok(_) => {},
            Err(error) => {
                found.push((i, error));
                assert(placed(found@) =~= before.push((i as int, error@)));
            },
        }
        i += 1;
    }
    assert(all.take(docs.len() as int) =~= all);
    found
}

/// Converts the first document, if there is one and it conforms.
pub fn convert_first<T: Record>(docs: &Vec<Document>) -> (record: Option<T>)
    ensures
        match record {
            Some(r) => first_converted::<T>(views(docs@)) == Some(r@),
            None => first_converted::<T>(views(docs@)) is None,
        },
{
    if docs.len() == 0 {
        None
    } else {
        match value_to_type::<T>(&docs[0]) {
            Ok(r) => Some(r),
            Err(_) => None,
        }
    }
}

/// What is read from a field that fits is all that the field holds: the
/// text of a text, the number of an integer, the items of a list of texts.
pub proof fn lemma_fitting_field_is_read_whole(doc: Fields, key: Seq<char>)
    ensures
        fits(doc, text(key)) ==> field(doc, key) == Some(Json::Text(text_at(doc, key))),
        fits(doc, int32(key)) ==> field(doc, key) == Some(Json::Int(int32_at(doc, key))),
        fits(doc, text_list(key)) ==> field(doc, key) == Some(
            Json::List(text_list_at(doc, key).map_values(|s: Seq<char>| Json::Text(s))),
        ),
{
    if fits(doc, text_list(key)) {
        let items = field(doc, key)->Some_0->List_0;
        let read = text_list_at(doc, key).map_values(|s: Seq<char>| Json::Text(s));
        assert forall|i: int| 0 <= i < items.len() implies items[i] == read[i] by {
            assert(items[i] is Text);
        }
        assert(items =~= read);
    }
}

/// A conforming document gives its record, with every field of the record
/// read from the document; a document that does not conform gives none.
pub proof fn lemma_decoded_iff_conforms<T: Record>(doc: Fields)
    ensures
        conforms(doc, T::shape()) ==> decoded::<T>(doc) == Some(T::built(doc)),
        !conforms(doc, T::shape()) ==> decoded::<T>(doc) is None,
        decoded::<T>(doc) is None <==> first_fault(doc, T::shape()) is Some,
{
    lemma_conforms_iff_no_fault(doc, T::shape());
}

/// Every document is either converted or refused, never both and never
/// neither: records and refusals together are as many as the documents.
pub proof fn lemma_converted_or_refused<T: Record>(docs: Seq<Fields>)
    ensures
        converted::<T>(docs).len() + refused::<T>(docs).len() == docs.len(),
    decreases docs.len(),
{
    if docs.len() > 0 {
        lemma_converted_or_refused::<T>(docs.drop_last());
        lemma_conforms_iff_no_fault(docs.last(), T::shape());
    }
}

/// No documents, no records.
pub proof fn lemma_no_documents_no_records<T: Record>()
    ensures
        converted::<T>(Seq::<Fields>::empty()) == Seq::<T::V>::empty(),
        first_converted::<T>(Seq::<Fields>::empty()) is None,
{
}

/// Where no document conforms, there are no records.
pub proof fn lemma_no_conforming_documents_no_records<T: Record>(docs: Seq<Fields>)
    requires
        forall|i: int| 0 <= i < docs.len() ==> !conforms(#[trigger] docs[i], T::shape()),
    ensures
        converted::<T>(docs) == Seq::<T::V>::empty(),
    decreases docs.len(),
{
    if docs.len() > 0 {
        let rest = docs.drop_last();
        assert forall|i: int| 0 <= i < rest.len() implies !conforms(
            #[trigger] rest[i],
            T::shape(),
        ) by {
            assert(rest[i] == docs[i]);
        }
        lemma_no_conforming_documents_no_records::<T>(rest);
        assert(!conforms(docs[docs.len() - 1], T::shape()));
    }
}

/// A document that does not conform leaves no trace in the records: they
/// are the records of the collection without it.
pub proof fn lemma_malformed_document_is_left_out<T: Record>(docs: Seq<Fields>, at: int)
    requires
        0 <= at < docs.len(),
        !conforms(docs[at], T::shape()),
    ensures
        converted::<T>(docs) == converted::<T>(docs.remove(at)),
    decreases docs.len(),
{
    let without = docs.remove(at);
    if at == docs.len() - 1 {
        assert(without =~= docs.drop_last());
    } else {
        lemma_malformed_document_is_left_out::<T>(docs.drop_last(), at);
        assert(without.drop_last() =~= docs.drop_last().remove(at));
        assert(without.last() == docs.last());
    }
}

/// Every record comes from a document that conforms, and is that
/// document's record.
pub proof fn lemma_records_come_from_conforming_documents<T: Record>(
    docs: Seq<Fields>,
    record: T::V,
)
    requires
        converted::<T>(docs).contains(record),
    ensures
        exists|doc: Fields| #[trigger]
            docs.contains(doc) && conforms(doc, T::shape()) && record == T::built(doc),
{
    docs.lemma_filter_map_contains(decoder::<T>(), record);
    let doc = choose|doc: Fields| #[trigger]
        docs.contains(doc) && decoder::<T>()(doc) == Some(record);
    assert(docs.contains(doc) && conforms(doc, T::shape()) && record == T::built(doc));
}

/// The records keep the order of their documents: the records of a
/// collection followed by one more document are the records of the
/// collection, followed by the document's record if it conforms.
pub proof fn lemma_records_follow_documents<T: Record>(docs: Seq<Fields>, doc: Fields)
    ensures
        converted::<T>(docs.push(doc)) == match decoded::<T>(doc) {
            Some(record) => converted::<T>(docs).push(record),
            None => converted::<T>(docs),
        },
{
    let all = docs.push(doc);
    assert(all.drop_last() =~= docs);
    assert(all.last() == doc);
    match decoded::<T>(doc) {
        Some(record) => {
            assert(converted::<T>(docs) + seq![record] =~= converted::<T>(docs).push(record));
        },
        None => {},
    }
}

} // verus!

//! Stored documents and the values they hold.
//!
//! A document is an ordered list of named values. Values form a tree of
//! scalars, lists and nested documents. Every executable type here has a
//! mathematical view ([`Json`], [`Fields`]) that the contracts of the crate
//! are written over.

use vstd::prelude::*;

verus! {

/// Mathematical model of a stored value.
pub enum Json {
    Null,
    Bool(bool),
    Int(int),
    /// A number that is not an integer, kept by its decimal text.
    Decimal(Seq<char>),
    Text(Seq<char>),
    List(Seq<Json>),
    Object(Seq<(Seq<char>, Json)>),
}

/// Mathematical model of a document: its fields in stored order.
pub type Fields = Seq<(Seq<char>, Json)>;

/// A value held in a stored document.
#[derive(Debug, PartialEq, Eq)]
pub enum Value {
    Null,
    Bool(bool),
    Int(i64),
    /// A number that is not an integer, kept by its decimal text.
    Decimal(String),
    Text(String),
    List(Vec<Value>),
    Object(Document),
}

/// A stored document: named values in stored order.
#[derive(Debug, PartialEq, Eq)]
pub struct Document {
    pub fields: Vec<(String, Value)>,
}

impl View for Value {
    type V = Json;

    open spec fn view(&self) -> Json
        decreases self,
    {
        match self {
            Value::Null => Json::Null,
            Value::Bool(b) => Json::Bool(*b),
            Value::Int(n) => Json::Int(*n as int),
            Value::Decimal(s) => Json::Decimal(s@),
            Value::Text(s) => Json::Text(s@),
            Value::List(items) => Json::List(
                Seq::new(
                    items@.len(),
                    |i: int|
                        if 0 <= i < items@.len() {
                            items@[i].view()
                        } else {
                            Json::Null
                        },
                ),
            ),
            Value::Object(doc) => Json::Object(doc.view()),
        }
    }
}

impl View for Document {
    type V = Fields;

    open spec fn view(&self) -> Fields
        decreases self,
    {
        Seq::new(
            self.fields@.len(),
            |i: int|
                if 0 <= i < self.fields@.len() {
                    (self.fields@[i].0@, self.fields@[i].1.view())
                } else {
                    (Seq::empty(), Json::Null)
                },
        )
    }
}

/// The value of the first field of `fields` that is named `key`, if there is one.
pub open spec fn field(fields: Fields, key: Seq<char>) -> Option<Json>
    decreases fields.len(),
{
    if fields.len() == 0 {
        None
    } else if fields[0].0 == key {
        Some(fields[0].1)
    } else {
        field(fields.skip(1), key)
    }
}

/// The views of the items of a list, in order.
pub open spec fn views<T: View>(items: Seq<T>) -> Seq<T::V> {
    Seq::new(items.len(), |i: int| items[i]@)
}

/// A field that no entry before index `at` carries is looked up in the rest alone.
pub proof fn lemma_field_skips(fields: Fields, key: Seq<char>, at: int)
    requires
        0 <= at <= fields.len(),
        forall|j: int| 0 <= j < at ==> fields[j].0 != key,
    ensures
        field(fields, key) == field(fields.skip(at), key),
    decreases at,
{
    if at == 0 {
        assert(fields.skip(0) =~= fields);
    } else {
        lemma_field_skips(fields, key, at - 1);
        let rest = fields.skip(at - 1);
        assert(rest[0] == fields[at - 1]);
        assert(rest.skip(1) =~= fields.skip(at));
    }
}

/// A name that no field carries has no value.
pub proof fn lemma_field_absent(fields: Fields, key: Seq<char>)
    requires
        forall|j: int| 0 <= j < fields.len() ==> fields[j].0 != key,
    ensures
        field(fields, key) is None,
{
    lemma_field_skips(fields, key, fields.len() as int);
}

/// The first field with a name holds that name's value.
pub proof fn lemma_field_found(fields: Fields, key: Seq<char>, at: int)
    requires
        0 <= at < fields.len(),
        fields[at].0 == key,
        forall|j: int| 0 <= j < at ==> fields[j].0 != key,
    ensures
        field(fields, key) == Some(fields[at].1),
{
    lemma_field_skips(fields, key, at);
    assert(fields.skip(at)[0] == fields[at]);
}

impl Document {
    /// The document without fields.
    pub fn new() -> (doc: Document)
        ensures
            doc@ == Seq::<(Seq<char>, Json)>::empty(),
    {
        let doc = Document { fields: Vec::new() };
        assert(doc@ =~= Seq::<(Seq<char>, Json)>::empty());
        doc
    }

    /// This document with one more field at its end.
    pub fn with(self, key: &str, value: Value) -> (doc: Document)
        ensures
            doc@ == self@.push((key@, value@)),
    {
        let mut fields = self.fields;
        fields.push((key.to_owned(), value));
        let doc = Document { fields };
        assert(doc@ =~= self@.push((key@, value@)));
        doc
    }

    /// The number of fields.
    pub fn len(&self) -> (n: usize)
        ensures
            n == self@.len(),
    {
        self.fields.len()
    }

    /// The value of the first field named `key`.
    pub fn get(&self, key: &str) -> (found: Option<&Value>)
        ensures
            match found {
                Some(value) => field(self@, key@) == Some(value@),
                None => field(self@, key@) is None,
            },
    {
        let wanted = key.to_owned();
        let mut i: usize = 0;
        while i < self.fields.len()
            invariant
                i <= self.fields.len(),
                wanted@ == key@,
                forall|j: int| 0 <= j < i ==> self@[j].0 != key@,
            decreases self.fields.len() - i,
        {
            if self.fields[i].0 == wanted {
                proof {
                    lemma_field_found(self@, key@, i as int);
                }
                return Some(&self.fields[i].1);
            }
            i += 1;
        }
        proof {
            lemma_field_absent(self@, key@);
        }
        None
    }
}

/// The text that a value holds, if it is a text.
pub open spec fn text_of(value: Json) -> Option<Seq<char>> {
    match value {
        Json::Text(s) => Some(s),
        _ => None,
    }
}

/// The number that a value holds, if it is an integer that a signed 32-bit
/// number can hold.
pub open spec fn int32_of(value: Json) -> Option<int> {
    match value {
        Json::Int(n) => if i32::MIN <= n <= i32::MAX {
            Some(n)
        } else {
            None
        },
        _ => None,
    }
}

/// Every item of the list is a text.
pub open spec fn all_text(items: Seq<Json>) -> bool {
    forall|i: int| 0 <= i < items.len() ==> (#[trigger] items[i]) is Text
}

/// The texts that a value holds, if it is a list of texts.
pub open spec fn text_list_of(value: Json) -> Option<Seq<Seq<char>>> {
    match value {
        Json::List(items) => if all_text(items) {
            Some(Seq::new(items.len(), |i: int| items[i]->Text_0))
        } else {
            None
        },
        _ => None,
    }
}

impl Value {
    /// A text value.
    pub fn text(s: &str) -> (value: Value)
        ensures
            value@ == Json::Text(s@),
    {
        Value::Text(s.to_owned())
    }

    /// A list of text values.
    pub fn text_list(items: Vec<String>) -> (value: Value)
        ensures
            value@ == Json::List(items.deep_view().map_values(|s: Seq<char>| Json::Text(s))),
    {
        let mut list: Vec<Value> = Vec::new();
        let mut i: usize = 0;
        while i < items.len()
            invariant
                i <= items.len(),
                list.len() == i,
                forall|j: int| 0 <= j < i ==> (#[trigger] list@[j])@ == Json::Text(items@[j]@),
            decreases items.len() - i,
        {
            list.push(Value::Text(items[i].clone()));
            i += 1;
        }
        let value = Value::List(list);
        assert(value@->List_0 =~= items.deep_view().map_values(|s: Seq<char>| Json::Text(s)));
        value
    }

    /// The text, if this is a text.
    pub fn as_text(&self) -> (found: Option<&String>)
        ensures
            match found {
                Some(s) => text_of(self@) == Some(s@),
                None => text_of(self@) is None,
            },
    {
        match self {
            Value::Text(s) => Some(s),
            _ => None,
        }
    }

    /// The number, if this is an integer that a signed 32-bit number can hold.
    pub fn as_i32(&self) -> (found: Option<i32>)
        ensures
            match found {
                Some(n) => int32_of(self@) == Some(n as int),
                None => int32_of(self@) is None,
            },
    {
        match self {
            Value::Int(n) => {
                if i32::MIN as i64 <= *n && *n <= i32::MAX as i64 {
                    Some(*n as i32)
                } else {
                    None
                }
            },
            _ => None,
        }
    }

    /// The texts, if this is a list of texts.
    pub fn as_text_list(&self) -> (found: Option<Vec<String>>)
        ensures
            match found {
                Some(texts) => text_list_of(self@) == Some(texts.deep_view()),
                None => text_list_of(self@) is None,
            },
    {
        match self {
            Value::List(items) => {
                let ghost models = self@->List_0;
                let mut texts: Vec<String> = Vec::new();
                let mut i: usize = 0;
                while i < items.len()
                    invariant
                        i <= items.len(),
                        texts.len() == i,
                        self@ == Json::List(models),
                        models.len() == items.len(),
                        forall|j: int| 0 <= j < items.len() ==> models[j] == (#[trigger] items@[j])@,
                        forall|j: int| 0 <= j < i ==> (#[trigger] models[j]) is Text,
                        forall|j: int| 0 <= j < i ==> (#[trigger] texts@[j])@ == models[j]->Text_0,
                    decreases items.len() - i,
                {
                    match &items[i] {
                        Value::Text(s) => {
                            texts.push(s.clone());
                        },
                        _ => {
                            assert(!(models[i as int] is Text));
                            return None;
                        },
                    }
                    i += 1;
                }
                assert(text_list_of(self@)->Some_0 =~= texts.deep_view());
                Some(texts)
            },
            _ => None,
        }
    }

    /// The nested document, if this is one.
    pub fn as_document(&self) -> (found: Option<&Document>)
        ensures
            match found {
                Some(doc) => self@ == Json::Object(doc@),
                None => !(self@ is Object),
            },
    {
        match self {
            Value::Object(doc) => Some(doc),
            _ => None,
        }
    }

    /// The items, if this is a list.
    pub fn as_list(&self) -> (found: Option<&Vec<Value>>)
        ensures
            match found {
                Some(items) => self@ == Json::List(views(items@)),
                None => !(self@ is List),
            },
    {
        match self {
            Value::List(items) => {
                assert(self@->List_0 =~= views(items@));
                Some(items)
            },
            _ => None,
        }
    }
}

} // verus!

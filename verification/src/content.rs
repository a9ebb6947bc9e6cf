//! Content blocks of a blog post.
//!
//! A block carries a type tag and a value that is either one string or a
//! list of strings. Towards callers a list is shown as one string, its items
//! joined by a comma and a space.

use crate::document::{field, text_list_of, text_of, views, Json, Value};
use vstd::prelude::*;

verus! {

/// The value of a content block.
#[derive(Clone, Debug, PartialEq, Eq)]
pub enum ContentValue {
    String(String),
    StringArray(Vec<String>),
}

/// Mathematical model of [`ContentValue`].
pub enum ContentModel {
    String(Seq<char>),
    StringArray(Seq<Seq<char>>),
}

impl View for ContentValue {
    type V = ContentModel;

    open spec fn view(&self) -> ContentModel {
        match self {
            ContentValue::String(s) => ContentModel::String(s@),
            ContentValue::StringArray(parts) => ContentModel::StringArray(parts.deep_view()),
        }
    }
}

/// One block of a blog post's content.
#[derive(Clone, Debug, PartialEq, Eq)]
pub struct ContentBlock {
    pub block_type: String,
    pub value: ContentValue,
}

/// Mathematical model of [`ContentBlock`].
pub struct BlockModel {
    pub block_type: Seq<char>,
    pub value: ContentModel,
}

impl View for ContentBlock {
    type V = BlockModel;

    open spec fn view(&self) -> BlockModel {
        BlockModel { block_type: self.block_type@, value: self.value@ }
    }
}

/// A content block as callers see it: the value is always one string.
#[derive(Clone, Debug, PartialEq, Eq)]
pub struct ContentBlockOutput {
    pub block_type: String,
    pub value: String,
}

/// Mathematical model of [`ContentBlockOutput`].
pub struct OutputModel {
    pub block_type: Seq<char>,
    pub value: Seq<char>,
}

impl View for ContentBlockOutput {
    type V = OutputModel;

    open spec fn view(&self) -> OutputModel {
        OutputModel { block_type: self.block_type@, value: self.value@ }
    }
}

/// What stands between two items of a flattened list: a comma and a space.
pub open spec fn separator() -> Seq<char> {
    seq![',', ' ']
}

/// The items of `parts` in order, with `sep` between each two neighbours.
pub open spec fn joined(parts: Seq<Seq<char>>, sep: Seq<char>) -> Seq<char>
    decreases parts.len(),
{
    if parts.len() == 0 {
        Seq::empty()
    } else if parts.len() == 1 {
        parts[0]
    } else {
        joined(parts.drop_last(), sep) + sep + parts.last()
    }
}

/// The one string that stands for a content value.
pub open spec fn flattened(value: ContentModel) -> Seq<char> {
    match value {
        ContentModel::String(s) => s,
        ContentModel::StringArray(parts) => joined(parts, separator()),
    }
}

/// A block as callers see it.
pub open spec fn output_of(block: BlockModel) -> OutputModel {
    OutputModel { block_type: block.block_type, value: flattened(block.value) }
}

/// The content value that a stored value holds: a text stands for a string,
/// a list of texts for a list of strings, and nothing else for anything.
pub open spec fn content_of(value: Json) -> Option<ContentModel> {
    match text_of(value) {
        Some(s) => Some(ContentModel::String(s)),
        None => match text_list_of(value) {
            Some(parts) => Some(ContentModel::StringArray(parts)),
            None => None,
        },
    }
}

/// The content block that a stored value holds: a nested document whose
/// field `type` is a text and whose field `value` is a content value.
pub open spec fn block_of(value: Json) -> Option<BlockModel> {
    match value {
        Json::Object(fields) => match (field(fields, "type"@), field(fields, "value"@)) {
            (Some(tag), Some(held)) => match (text_of(tag), content_of(held)) {
                (Some(block_type), Some(value)) => Some(BlockModel { block_type, value }),
                _ => None,
            },
            _ => None,
        },
        _ => None,
    }
}

/// Every item of the list holds a content block.
pub open spec fn all_blocks(items: Seq<Json>) -> bool {
    forall|i: int| 0 <= i < items.len() ==> block_of(#[trigger] items[i]) is Some
}

/// The content blocks that a stored value holds, if it is a list of them.
pub open spec fn blocks_of(value: Json) -> Option<Seq<BlockModel>> {
    match value {
        Json::List(items) => if all_blocks(items) {
            Some(Seq::new(items.len(), |i: int| block_of(items[i])->Some_0))
        } else {
            None
        },
        _ => None,
    }
}

/// The items of `parts` in order, with `sep` between each two neighbours.
pub fn join(parts: &Vec<String>, sep: &str) -> (text: String)
    ensures
        text@ == joined(parts.deep_view(), sep@),
{
    let ghost all = parts.deep_view();
    let mut text = String::new();
    let mut i: usize = 0;
    while i < parts.len()
        invariant
            i <= parts.len(),
            all == parts.deep_view(),
            text@ == joined(all.take(i as int), sep@),
        decreases parts.len() - i,
    {
        proof {
            assert(all.take(i + 1).drop_last() =~= all.take(i as int));
            assert(all.take(i + 1).last() == parts@[i as int]@);
        }
        if i > 0 {
            text.append(sep);
        }
        text.append(parts[i].as_str());
        i += 1;
    }
    assert(all.take(parts.len() as int) =~= all);
    text
}

impl ContentValue {
    /// Reads a content value: a text first, else a list of texts.
    pub fn from_value(value: &Value) -> (found: Option<ContentValue>)
        ensures
            match found {
                Some(content) => content_of(value@) == Some(content@),
                None => content_of(value@) is None,
            },
    {
        match value.as_text() {
            Some(s) => Some(ContentValue::String(s.clone())),
            None => match value.as_text_list() {
                Some(parts) => Some(ContentValue::StringArray(parts)),
                None => None,
            },
        }
    }

    /// The one string that stands for this value: a string as it is, a list
    /// with its items joined by a comma and a space.
    pub fn flatten(&self) -> (text: String)
        ensures
            text@ == flattened(self@),
            self@ matches ContentModel::String(s) ==> text@ == s,
    {
        match self {
            ContentValue::String(s) => s.clone(),
            ContentValue::StringArray(parts) => {
                proof {
                    reveal_strlit(", ");
                    assert(", "@ =~= separator());
                }
                join(parts, ", ")
            },
        }
    }
}

impl ContentBlock {
    /// Reads a content block from a nested document with a text `type` and a
    /// content `value`; other fields are passed over.
    pub fn from_value(value: &Value) -> (found: Option<ContentBlock>)
        ensures
            match found {
                Some(block) => block_of(value@) == Some(block@),
                None => block_of(value@) is None,
            },
    {
        let doc = match value.as_document() {
            Some(doc) => doc,
            None => { return None; },
        };
        let tag = match doc.get("type") {
            Some(tag) => tag,
            None => { return None; },
        };
        let held = match doc.get("value") {
            Some(held) => held,
            None => { return None; },
        };
        let block_type = match tag.as_text() {
            Some(s) => s.clone(),
            None => { return None; },
        };
        match ContentValue::from_value(held) {
            Some(value) => Some(ContentBlock { block_type, value }),
            None => None,
        }
    }

    /// Reads a list of content blocks; one item that is no block spoils the list.
    pub fn list_from_value(value: &Value) -> (found: Option<Vec<ContentBlock>>)
        ensures
            match found {
                Some(blocks) => blocks_of(value@) == Some(views(blocks@)),
                None => blocks_of(value@) is None,
            },
    {
        let items = match value.as_list() {
            Some(items) => items,
            None => { return None; },
        };
        let ghost models = views(items@);
        let mut blocks: Vec<ContentBlock> = Vec::new();
        let mut i: usize = 0;
        while i < items.len()
            invariant
                i <= items.len(),
                blocks.len() == i,
                value@ == Json::List(models),
                models == views(items@),
                forall|j: int| 0 <= j < i ==> block_of(#[trigger] models[j]) == Some(blocks@[j]@),
            decreases items.len() - i,
        {
            match ContentBlock::from_value(&items[i]) {
                Some(block) => {
                    blocks.push(block);
                },
                None => {
                    assert(block_of(models[i as int]) is None);
                    return None;
                },
            }
            i += 1;
        }
        assert(blocks_of(value@)->Some_0 =~= views(blocks@));
        Some(blocks)
    }

    /// This block as callers see it: the type tag kept, the value flattened.
    pub fn output(&self) -> (out: ContentBlockOutput)
        ensures
            out@ == output_of(self@),
    {
        ContentBlockOutput { block_type: self.block_type.clone(), value: self.value.flatten() }
    }
}

/// Flattening what is already one string changes nothing, so flattening
/// twice gives what flattening once gives.
pub proof fn lemma_flatten_idempotent(value: ContentModel)
    ensures
        flattened(ContentModel::String(flattened(value))) == flattened(value),
        value matches ContentModel::String(s) ==> flattened(value) == s,
{
}

/// A list of one item flattens to that item; a list of two to the first, a
/// comma, a space and the second.
pub proof fn lemma_flatten_short_lists(a: Seq<char>, b: Seq<char>)
    ensures
        flattened(ContentModel::StringArray(Seq::empty())) == Seq::<char>::empty(),
        flattened(ContentModel::StringArray(seq![a])) == a,
        flattened(ContentModel::StringArray(seq![a, b])) == a + seq![',', ' '] + b,
{
    reveal_with_fuel(joined, 3);
    assert(seq![a, b].drop_last() =~= seq![a]);
}

} // verus!

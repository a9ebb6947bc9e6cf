//! Blog posts.

use crate::content::{output_of, BlockModel, ContentBlock, ContentBlockOutput, OutputModel};
use crate::convert::{
    blocks, blocks_at, blocks_field, lemma_first_fault_at, text, text_at, text_field, text_list,
    text_list_at, text_list_field, FieldSpec, Record,
};
use crate::document::{views, Document, Fields};
use crate::error::ConversionError;
use vstd::prelude::*;

verus! {

/// A blog post. Dates are kept as the text that the store holds.
#[derive(Clone, Debug, PartialEq, Eq)]
pub struct BlogPost {
    pub title: String,
    pub slug: String,
    pub author: String,
    pub date: String,
    pub content: Vec<ContentBlock>,
    pub tags: Vec<String>,
    pub status: String,
    pub excerpt: String,
    pub created_at: String,
    pub updated_at: String,
}

/// Mathematical model of [`BlogPost`].
pub struct BlogPostModel {
    pub title: Seq<char>,
    pub slug: Seq<char>,
    pub author: Seq<char>,
    pub date: Seq<char>,
    pub content: Seq<BlockModel>,
    pub tags: Seq<Seq<char>>,
    pub status: Seq<char>,
    pub excerpt: Seq<char>,
    pub created_at: Seq<char>,
    pub updated_at: Seq<char>,
}

impl View for BlogPost {
    type V = BlogPostModel;

    open spec fn view(&self) -> BlogPostModel {
        BlogPostModel {
            title: self.title@,
            slug: self.slug@,
            author: self.author@,
            date: self.date@,
            content: views(self.content@),
            tags: self.tags.deep_view(),
            status: self.status@,
            excerpt: self.excerpt@,
            created_at: self.created_at@,
            updated_at: self.updated_at@,
        }
    }
}

impl Record for BlogPost {
    open spec fn shape() -> Seq<FieldSpec> {
        seq![
            text("title"@),
            text("slug"@),
            text("author"@),
            text("date"@),
            blocks("content"@),
            text_list("tags"@),
            text("status"@),
            text("excerpt"@),
            text("createdAt"@),
            text("updatedAt"@),
        ]
    }

    open spec fn built(doc: Fields) -> BlogPostModel {
        BlogPostModel {
            title: text_at(doc, "title"@),
            slug: text_at(doc, "slug"@),
            author: text_at(doc, "author"@),
            date: text_at(doc, "date"@),
            content: blocks_at(doc, "content"@),
            tags: text_list_at(doc, "tags"@),
            status: text_at(doc, "status"@),
            excerpt: text_at(doc, "excerpt"@),
            created_at: text_at(doc, "createdAt"@),
            updated_at: text_at(doc, "updatedAt"@),
        }
    }

    fn convert(doc: &Document) -> (r: Result<BlogPost, ConversionError>) {
        let title = match text_field(doc, "title") {
            Ok(v) => v,
            Err(e) => {
                proof {
                    lemma_first_fault_at(doc@, Self::shape(), 0);
                }
                return Err(e);
            },
        };
        let slug = match text_field(doc, "slug") {
            Ok(v) => v,
            Err(e) => {
                proof {
                    lemma_first_fault_at(doc@, Self::shape(), 1);
                }
                return Err(e);
            },
        };
        let author = match text_field(doc, "author") {
            Ok(v) => v,
            Err(e) => {
                proof {
                    lemma_first_fault_at(doc@, Self::shape(), 2);
                }
                return Err(e);
            },
        };
        let date = match text_field(doc, "date") {
            Ok(v) => v,
            Err(e) => {
                proof {
                    lemma_first_fault_at(doc@, Self::shape(), 3);
                }
                return Err(e);
            },
        };
        let content = match blocks_field(doc, "content") {
            Ok(v) => v,
            Err(e) => {
                proof {
                    lemma_first_fault_at(doc@, Self::shape(), 4);
                }
                return Err(e);
            },
        };
        let tags = match text_list_field(doc, "tags") {
            Ok(v) => v,
            Err(e) => {
                proof {
                    lemma_first_fault_at(doc@, Self::shape(), 5);
                }
                return Err(e);
            },
        };
        let status = match text_field(doc, "status") {
            Ok(v) => v,
            Err(e) => {
                proof {
                    lemma_first_fault_at(doc@, Self::shape(), 6);
                }
                return Err(e);
            },
        };
        let excerpt = match text_field(doc, "excerpt") {
            Ok(v) => v,
            Err(e) => {
                proof {
                    lemma_first_fault_at(doc@, Self::shape(), 7);
                }
                return Err(e);
            },
        };
        let created_at = match text_field(doc, "createdAt") {
            Ok(v) => v,
            Err(e) => {
                proof {
                    lemma_first_fault_at(doc@, Self::shape(), 8);
                }
                return Err(e);
            },
        };
        let updated_at = match text_field(doc, "updatedAt") {
            Ok(v) => v,
            Err(e) => {
                proof {
                    lemma_first_fault_at(doc@, Self::shape(), 9);
                }
                return Err(e);
            },
        };
        Ok(
            BlogPost {
                title,
                slug,
                author,
                date,
                content,
                tags,
                status,
                excerpt,
                created_at,
                updated_at,
            },
        )
    }
}

/// The blocks as callers see them, in order.
pub open spec fn outputs(content: Seq<BlockModel>) -> Seq<OutputModel> {
    Seq::new(content.len(), |i: int| output_of(content[i]))
}

impl BlogPost {
    pub fn title(&self) -> (r: &str)
        ensures
            r@ == self@.title,
    {
        self.title.as_str()
    }

    pub fn slug(&self) -> (r: &str)
        ensures
            r@ == self@.slug,
    {
        self.slug.as_str()
    }

    pub fn author(&self) -> (r: &str)
        ensures
            r@ == self@.author,
    {
        self.author.as_str()
    }

    /// The date of the post, as the text that the store holds.
    pub fn date(&self) -> (r: &str)
        ensures
            r@ == self@.date,
    {
        self.date.as_str()
    }

    pub fn tags(&self) -> (r: &Vec<String>)
        ensures
            r.deep_view() == self@.tags,
            *r == self.tags,
    {
        &self.tags
    }

    pub fn status(&self) -> (r: &str)
        ensures
            r@ == self@.status,
    {
        self.status.as_str()
    }

    pub fn excerpt(&self) -> (r: &str)
        ensures
            r@ == self@.excerpt,
    {
        self.excerpt.as_str()
    }

    pub fn created_at(&self) -> (r: &str)
        ensures
            r@ == self@.created_at,
    {
        self.created_at.as_str()
    }

    pub fn updated_at(&self) -> (r: &str)
        ensures
            r@ == self@.updated_at,
    {
        self.updated_at.as_str()
    }

    /// The content of the post, block by block in order, each value as one
    /// string: a string as it is, a list joined by a comma and a space.
    pub fn content(&self) -> (r: Vec<ContentBlockOutput>)
        ensures
            views(r@) == outputs(self@.content),
    {
        let mut out: Vec<ContentBlockOutput> = Vec::new();
        let mut i: usize = 0;
        while i < self.content.len()
            invariant
                i <= self.content.len(),
                out.len() == i,
                forall|j: int| 0 <= j < i ==> (#[trigger] out@[j])@ == output_of(self.content@[j]@),
            decreases self.content.len() - i,
        {
            out.push(self.content[i].output());
            i += 1;
        }
        assert(views(out@) =~= outputs(self@.content));
        out
    }

    /// The same blocks that [`BlogPost::content`] gives.
    pub fn content_blocks(&self) -> (r: Vec<ContentBlockOutput>)
        ensures
            views(r@) == outputs(self@.content),
    {
        self.content()
    }
}

} // verus!

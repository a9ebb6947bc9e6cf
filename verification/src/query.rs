//! The query operations, one for each kind of content.
//!
//! An operation names the collection it reads and, for the lookup of one
//! blog post, the slug it looks for. Whoever drives the store issues the
//! operation's request and hands the outcome of the fetch to the operation's
//! resolver, which converts the documents and tells a failed fetch as a
//! field error. Documents that do not convert are left out without a word.

use crate::blog::BlogPost;
use crate::convert::{
    conforms, convert_all, convert_first, converted, first_converted, fits, text, text_at, Record,
};
use crate::document::{views, Document, Fields};
use crate::error::{field_failure, FetchError, FieldError};
use crate::fetch::{Collection, Request};
use crate::filter::{
    lemma_selected_none, lemma_selected_single, lemma_selected_without, owner_conditions,
    satisfies, selected, slug_conditions, Conditions,
};
use crate::records::{
    CurrentWork, Introduction, Manifesto, Personal, Project, Skills, SkillsOverview, SocialMedia,
    SoftSkills, User,
};
use vstd::prelude::*;

verus! {

/// What a resolver is given besides its arguments. It holds nothing.
#[derive(Clone, Copy, Debug, Default)]
pub struct Context;

/// The root of the queries: its associated functions are the resolvers.
#[derive(Clone, Copy, Debug)]
pub struct Query;

/// The operations that the query root offers.
#[derive(Clone, Debug, PartialEq, Eq)]
pub enum Operation {
    Introductions,
    Personals,
    Projects,
    SkillsOverview,
    Skills,
    SocialMedia,
    SoftSkills,
    Users,
    Manifestos,
    CurrentWork,
    BlogPosts,
    /// The one blog post with a given slug.
    BlogPost { slug: String },
}

impl Operation {
    /// The collection that the operation reads.
    pub open spec fn reads(self) -> Collection {
        match self {
            Operation::Introductions => Collection::Introductions,
            Operation::Personals => Collection::Personals,
            Operation::Projects => Collection::Projects,
            Operation::SkillsOverview => Collection::SkillsOverview,
            Operation::Skills => Collection::Skills,
            Operation::SocialMedia => Collection::SocialMedias,
            Operation::SoftSkills => Collection::SoftSkills,
            Operation::Users => Collection::Users,
            Operation::Manifestos => Collection::Manifestos,
            Operation::CurrentWork => Collection::CurrentWork,
            Operation::BlogPosts => Collection::BlogPosts,
            Operation::BlogPost { .. } => Collection::BlogPosts,
        }
    }

    /// The message under which a failed fetch of the operation is told.
    /// The projects share the message of the personal stories.
    pub open spec fn failure_text(self) -> Seq<char> {
        match self {
            Operation::Introductions => "Failed to fetch introductions"@,
            Operation::Personals => "Failed to fetch personals"@,
            Operation::Projects => "Failed to fetch personals"@,
            Operation::SkillsOverview => "Failed to fetch skills overview"@,
            Operation::Skills => "Failed to fetch skills"@,
            Operation::SocialMedia => "Failed to fetch social medias"@,
            Operation::SoftSkills => "Failed to fetch soft skills"@,
            Operation::Users => "Failed to fetch user"@,
            Operation::Manifestos => "Failed to fetch manifestos"@,
            Operation::CurrentWork => "Failed to fetch current work"@,
            Operation::BlogPosts => "Failed to fetch blog posts"@,
            Operation::BlogPost { .. } => "Failed to fetch blog post"@,
        }
    }

    /// The filter that the operation reads its collection through: the
    /// owner's email, and for the lookup of one blog post its slug too.
    pub open spec fn conditions(self, owner_email: Seq<char>) -> Conditions {
        match self {
            Operation::BlogPost { slug } => slug_conditions(owner_email, slug@),
            _ => owner_conditions(owner_email),
        }
    }

    /// The collection that the operation reads.
    pub fn collection(&self) -> (collection: Collection)
        ensures
            collection == self.reads(),
    {
        match self {
            Operation::Introductions => Collection::Introductions,
            Operation::Personals => Collection::Personals,
            Operation::Projects => Collection::Projects,
            Operation::SkillsOverview => Collection::SkillsOverview,
            Operation::Skills => Collection::Skills,
            Operation::SocialMedia => Collection::SocialMedias,
            Operation::SoftSkills => Collection::SoftSkills,
            Operation::Users => Collection::Users,
            Operation::Manifestos => Collection::Manifestos,
            Operation::CurrentWork => Collection::CurrentWork,
            Operation::BlogPosts => Collection::BlogPosts,
            Operation::BlogPost { .. } => Collection::BlogPosts,
        }
    }

    /// The message under which a failed fetch of the operation is told.
    pub fn failure_message(&self) -> (message: &'static str)
        ensures
            message@ == self.failure_text(),
    {
        match self {
            Operation::Introductions => "Failed to fetch introductions",
            Operation::Personals => "Failed to fetch personals",
            Operation::Projects => "Failed to fetch personals",
            Operation::SkillsOverview => "Failed to fetch skills overview",
            Operation::Skills => "Failed to fetch skills",
            Operation::SocialMedia => "Failed to fetch social medias",
            Operation::SoftSkills => "Failed to fetch soft skills",
            Operation::Users => "Failed to fetch user",
            Operation::Manifestos => "Failed to fetch manifestos",
            Operation::CurrentWork => "Failed to fetch current work",
            Operation::BlogPosts => "Failed to fetch blog posts",
            Operation::BlogPost { .. } => "Failed to fetch blog post",
        }
    }

    /// The find that the operation issues for the owner.
    pub fn request(&self, owner_email: &str) -> (request: Request)
        ensures
            request.collection == self.reads(),
            request.filter@ == self.conditions(owner_email@),
    {
        match self {
            Operation::BlogPost { slug } => Request::by_slug(
                self.collection(),
                owner_email,
                slug.as_str(),
            ),
            _ => Request::all(self.collection(), owner_email),
        }
    }
}

/// Resolves a list operation from the outcome of its fetch: the records of
/// the documents that conform, in order, or the failure as a field error.
pub fn resolve_list<T: Record>(
    fetched: Result<Vec<Document>, FetchError>,
    message: &str,
) -> (r: Result<Vec<T>, FieldError>)
    ensures
        match fetched {
            Ok(docs) => r matches Ok(list) && views(list@) == converted::<T>(views(docs@)),
            Err(error) => r matches Err(e) && e@ == field_failure(message@, error@),
        },
{
    match fetched {
        Ok(docs) => Ok(convert_all::<T>(&docs)),
        Err(error) => Err(FieldError::new(message, &error)),
    }
}

/// Resolves a lookup from the outcome of its fetch: the record of the first
/// document if there is one and it conforms, or the failure as a field error.
pub fn resolve_first<T: Record>(
    fetched: Result<Vec<Document>, FetchError>,
    message: &str,
) -> (r: Result<Option<T>, FieldError>)
    ensures
        match fetched {
            Ok(docs) => r matches Ok(found) && match found {
                Some(record) => first_converted::<T>(views(docs@)) == Some(record@),
                None => first_converted::<T>(views(docs@)) is None,
            },
            Err(error) => r matches Err(e) && e@ == field_failure(message@, error@),
        },
{
    match fetched {
        Ok(docs) => Ok(convert_first::<T>(&docs)),
        Err(error) => Err(FieldError::new(message, &error)),
    }
}

impl Query {
    /// The introduction cards of the owner, from what the fetch of the operation gave.
    /// Documents that do not conform are left out; no documents, or none that
    /// conforms, give the empty list, never an error. A failed fetch is told
    /// as a field error under the operation's message.
    pub fn introductions(fetched: Result<Vec<Document>, FetchError>) -> (r: Result<
        Vec<Introduction>,
        FieldError,
    >)
        ensures
            match fetched {
                Ok(docs) => r matches Ok(list) && views(list@) == converted::<Introduction>(
                    views(docs@),
                ),
                Err(error) => r matches Err(e) && e@ == field_failure(
                    Operation::Introductions.failure_text(),
                    error@,
                ),
            },
    {
        resolve_list::<Introduction>(fetched, Operation::Introductions.failure_message())
    }

    /// The personal stories of the owner, from what the fetch of the operation gave.
    /// Documents that do not conform are left out; no documents, or none that
    /// conforms, give the empty list, never an error. A failed fetch is told
    /// as a field error under the operation's message.
    pub fn personals(fetched: Result<Vec<Document>, FetchError>) -> (r: Result<
        Vec<Personal>,
        FieldError,
    >)
        ensures
            match fetched {
                Ok(docs) => r matches Ok(list) && views(list@) == converted::<Personal>(
                    views(docs@),
                ),
                Err(error) => r matches Err(e) && e@ == field_failure(
                    Operation::Personals.failure_text(),
                    error@,
                ),
            },
    {
        resolve_list::<Personal>(fetched, Operation::Personals.failure_message())
    }

    /// The projects of the owner, from what the fetch of the operation gave.
    /// Documents that do not conform are left out; no documents, or none that
    /// conforms, give the empty list, never an error. A failed fetch is told
    /// as a field error under the operation's message.
    pub fn projects(fetched: Result<Vec<Document>, FetchError>) -> (r: Result<
        Vec<Project>,
        FieldError,
    >)
        ensures
            match fetched {
                Ok(docs) => r matches Ok(list) && views(list@) == converted::<Project>(
                    views(docs@),
                ),
                Err(error) => r matches Err(e) && e@ == field_failure(
                    Operation::Projects.failure_text(),
                    error@,
                ),
            },
    {
        resolve_list::<Project>(fetched, Operation::Projects.failure_message())
    }

    /// The overview of the owner's skills, from what the fetch of the operation gave.
    /// Documents that do not conform are left out; no documents, or none that
    /// conforms, give the empty list, never an error. A failed fetch is told
    /// as a field error under the operation's message.
    pub fn skills_overview(fetched: Result<Vec<Document>, FetchError>) -> (r: Result<
        Vec<SkillsOverview>,
        FieldError,
    >)
        ensures
            match fetched {
                Ok(docs) => r matches Ok(list) && views(list@) == converted::<SkillsOverview>(
                    views(docs@),
                ),
                Err(error) => r matches Err(e) && e@ == field_failure(
                    Operation::SkillsOverview.failure_text(),
                    error@,
                ),
            },
    {
        resolve_list::<SkillsOverview>(fetched, Operation::SkillsOverview.failure_message())
    }

    /// The skills of the owner, from what the fetch of the operation gave.
    /// Documents that do not conform are left out; no documents, or none that
    /// conforms, give the empty list, never an error. A failed fetch is told
    /// as a field error under the operation's message.
    pub fn skills(fetched: Result<Vec<Document>, FetchError>) -> (r: Result<
        Vec<Skills>,
        FieldError,
    >)
        ensures
            match fetched {
                Ok(docs) => r matches Ok(list) && views(list@) == converted::<Skills>(
                    views(docs@),
                ),
                Err(error) => r matches Err(e) && e@ == field_failure(
                    Operation::Skills.failure_text(),
                    error@,
                ),
            },
    {
        resolve_list::<Skills>(fetched, Operation::Skills.failure_message())
    }

    /// The social media links of the owner, from what the fetch of the operation gave.
    /// Documents that do not conform are left out; no documents, or none that
    /// conforms, give the empty list, never an error. A failed fetch is told
    /// as a field error under the operation's message.
    pub fn social_media(fetched: Result<Vec<Document>, FetchError>) -> (r: Result<
        Vec<SocialMedia>,
        FieldError,
    >)
        ensures
            match fetched {
                Ok(docs) => r matches Ok(list) && views(list@) == converted::<SocialMedia>(
                    views(docs@),
                ),
                Err(error) => r matches Err(e) && e@ == field_failure(
                    Operation::SocialMedia.failure_text(),
                    error@,
                ),
            },
    {
        resolve_list::<SocialMedia>(fetched, Operation::SocialMedia.failure_message())
    }

    /// The soft skills of the owner, from what the fetch of the operation gave.
    /// Documents that do not conform are left out; no documents, or none that
    /// conforms, give the empty list, never an error. A failed fetch is told
    /// as a field error under the operation's message.
    pub fn soft_skills(fetched: Result<Vec<Document>, FetchError>) -> (r: Result<
        Vec<SoftSkills>,
        FieldError,
    >)
        ensures
            match fetched {
                Ok(docs) => r matches Ok(list) && views(list@) == converted::<SoftSkills>(
                    views(docs@),
                ),
                Err(error) => r matches Err(e) && e@ == field_failure(
                    Operation::SoftSkills.failure_text(),
                    error@,
                ),
            },
    {
        resolve_list::<SoftSkills>(fetched, Operation::SoftSkills.failure_message())
    }

    /// The contact data of the owner, from what the fetch of the operation gave.
    /// Documents that do not conform are left out; no documents, or none that
    /// conforms, give the empty list, never an error. A failed fetch is told
    /// as a field error under the operation's message.
    pub fn users(fetched: Result<Vec<Document>, FetchError>) -> (r: Result<
        Vec<User>,
        FieldError,
    >)
        ensures
            match fetched {
                Ok(docs) => r matches Ok(list) && views(list@) == converted::<User>(
                    views(docs@),
                ),
                Err(error) => r matches Err(e) && e@ == field_failure(
                    Operation::Users.failure_text(),
                    error@,
                ),
            },
    {
        resolve_list::<User>(fetched, Operation::Users.failure_message())
    }

    /// The sections of the owner's manifesto, from what the fetch of the operation gave.
    /// Documents that do not conform are left out; no documents, or none that
    /// conforms, give the empty list, never an error. A failed fetch is told
    /// as a field error under the operation's message.
    pub fn manifestos(fetched: Result<Vec<Document>, FetchError>) -> (r: Result<
        Vec<Manifesto>,
        FieldError,
    >)
        ensures
            match fetched {
                Ok(docs) => r matches Ok(list) && views(list@) == converted::<Manifesto>(
                    views(docs@),
                ),
                Err(error) => r matches Err(e) && e@ == field_failure(
                    Operation::Manifestos.failure_text(),
                    error@,
                ),
            },
    {
        resolve_list::<Manifesto>(fetched, Operation::Manifestos.failure_message())
    }

    /// What the owner works on now, from what the fetch of the operation gave.
    /// Documents that do not conform are left out; no documents, or none that
    /// conforms, give the empty list, never an error. A failed fetch is told
    /// as a field error under the operation's message.
    pub fn current_work(fetched: Result<Vec<Document>, FetchError>) -> (r: Result<
        Vec<CurrentWork>,
        FieldError,
    >)
        ensures
            match fetched {
                Ok(docs) => r matches Ok(list) && views(list@) == converted::<CurrentWork>(
                    views(docs@),
                ),
                Err(error) => r matches Err(e) && e@ == field_failure(
                    Operation::CurrentWork.failure_text(),
                    error@,
                ),
            },
    {
        resolve_list::<CurrentWork>(fetched, Operation::CurrentWork.failure_message())
    }

    /// The blog posts of the owner, from what the fetch of the operation gave.
    /// Documents that do not conform are left out; no documents, or none that
    /// conforms, give the empty list, never an error. A failed fetch is told
    /// as a field error under the operation's message.
    pub fn blog_posts(fetched: Result<Vec<Document>, FetchError>) -> (r: Result<
        Vec<BlogPost>,
        FieldError,
    >)
        ensures
            match fetched {
                Ok(docs) => r matches Ok(list) && views(list@) == converted::<BlogPost>(
                    views(docs@),
                ),
                Err(error) => r matches Err(e) && e@ == field_failure(
                    Operation::BlogPosts.failure_text(),
                    error@,
                ),
            },
    {
        resolve_list::<BlogPost>(fetched, Operation::BlogPosts.failure_message())
    }

    /// The blog post with the slug that the fetch looked for: the first
    /// document fetched, if there is one and it conforms; else nothing. Later
    /// documents are not looked at. A failed fetch is told as a field error.
    pub fn blog_post(fetched: Result<Vec<Document>, FetchError>) -> (r: Result<
        Option<BlogPost>,
        FieldError,
    >)
        ensures
            match fetched {
                Ok(docs) => r matches Ok(found) && match found {
                    Some(post) => first_converted::<BlogPost>(views(docs@)) == Some(post@),
                    None => first_converted::<BlogPost>(views(docs@)) is None,
                },
                Err(error) => r matches Err(e) && e@ == field_failure(
                    "Failed to fetch blog post"@,
                    error@,
                ),
            },
    {
        resolve_first::<BlogPost>(fetched, "Failed to fetch blog post")
    }
}

/// A document that a filter lets through holds, in each field that the
/// filter names, the text that the filter asks for.
pub proof fn lemma_condition_fixes_text(doc: Fields, conditions: Conditions, at: int)
    requires
        satisfies(doc, conditions),
        0 <= at < conditions.len(),
    ensures
        fits(doc, text(conditions[at].0)),
        text_at(doc, conditions[at].0) == conditions[at].1,
{
    assert(conditions[at].0 == conditions[at].0);
}

/// Where exactly one stored post carries the owner's email and the slug, and
/// it conforms, the lookup gives that post, and the post carries the slug.
pub proof fn lemma_blog_post_found(
    stored: Seq<Fields>,
    owner_email: Seq<char>,
    slug: Seq<char>,
    at: int,
)
    requires
        0 <= at < stored.len(),
        satisfies(stored[at], slug_conditions(owner_email, slug)),
        forall|j: int|
            0 <= j < stored.len() && j != at ==> !satisfies(
                #[trigger] stored[j],
                slug_conditions(owner_email, slug),
            ),
        conforms(stored[at], BlogPost::shape()),
    ensures
        first_converted::<BlogPost>(selected(stored, slug_conditions(owner_email, slug))) == Some(
            BlogPost::built(stored[at]),
        ),
        BlogPost::built(stored[at]).slug == slug,
{
    let conditions = slug_conditions(owner_email, slug);
    lemma_selected_single(stored, conditions, at);
    lemma_condition_fixes_text(stored[at], conditions, 1);
}

/// Where no stored post carries both the owner's email and the slug, the
/// lookup gives nothing.
pub proof fn lemma_blog_post_absent(stored: Seq<Fields>, owner_email: Seq<char>, slug: Seq<char>)
    requires
        forall|j: int|
            0 <= j < stored.len() ==> !satisfies(
                #[trigger] stored[j],
                slug_conditions(owner_email, slug),
            ),
    ensures
        first_converted::<BlogPost>(selected(stored, slug_conditions(owner_email, slug))) is None,
{
    lemma_selected_none(stored, slug_conditions(owner_email, slug));
}

/// Where a list operation reads a collection through the owner's filter,
/// a stored document of another owner adds nothing to its records.
pub proof fn lemma_other_owners_are_left_out<T: Record>(
    stored: Seq<Fields>,
    owner_email: Seq<char>,
    at: int,
)
    requires
        0 <= at < stored.len(),
        !satisfies(stored[at], owner_conditions(owner_email)),
    ensures
        converted::<T>(selected(stored, owner_conditions(owner_email))) == converted::<T>(
            selected(stored.remove(at), owner_conditions(owner_email)),
        ),
{
    lemma_selected_without(stored, owner_conditions(owner_email), at);
}

} // verus!

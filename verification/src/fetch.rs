//! The fetch pipeline: what to ask of the store, and what to make of its answers.
//!
//! The store itself is reached by whoever drives this module. The driver
//! opens the connection, issues the find that a [`Request`] describes and
//! moves the cursor; after each of these it reports what happened and is
//! told how to go on. Every decision of the pipeline is taken here.

use crate::document::{views, Document, Fields};
use crate::error::{FetchError, FetchFailure};
use crate::filter::{owner_conditions, slug_conditions, Filter};
use vstd::prelude::*;

verus! {

/// The collections of the store.
#[derive(Clone, Copy, Debug, PartialEq, Eq, Structural)]
pub enum Collection {
    Introductions,
    Personals,
    Projects,
    SkillsOverview,
    Skills,
    SocialMedias,
    SoftSkills,
    Users,
    Manifestos,
    CurrentWork,
    BlogPosts,
}

impl Collection {
    /// The name that the collection has in the store.
    pub open spec fn name_text(self) -> Seq<char> {
        match self {
            Collection::Introductions => "introductions"@,
            Collection::Personals => "personals"@,
            Collection::Projects => "projects"@,
            Collection::SkillsOverview => "skillsoverview"@,
            Collection::Skills => "skills"@,
            Collection::SocialMedias => "socialmedias"@,
            Collection::SoftSkills => "softskills"@,
            Collection::Users => "users"@,
            Collection::Manifestos => "manifestos"@,
            Collection::CurrentWork => "currentwork"@,
            Collection::BlogPosts => "blogposts"@,
        }
    }

    /// The name that the collection has in the store.
    pub fn name(&self) -> (name: &'static str)
        ensures
            name@ == self.name_text(),
    {
        match self {
            Collection::Introductions => "introductions",
            Collection::Personals => "personals",
            Collection::Projects => "projects",
            Collection::SkillsOverview => "skillsoverview",
            Collection::Skills => "skills",
            Collection::SocialMedias => "socialmedias",
            Collection::SoftSkills => "softskills",
            Collection::Users => "users",
            Collection::Manifestos => "manifestos",
            Collection::CurrentWork => "currentwork",
            Collection::BlogPosts => "blogposts",
        }
    }

    /// The collection of that name, if the store has one.
    pub fn named(name: &str) -> (found: Option<Collection>)
        ensures
            match found {
                Some(collection) => collection.name_text() == name@,
                None => forall|collection: Collection| collection.name_text() != name@,
            },
    {
        let wanted = name.to_owned();
        if wanted == "introductions".to_owned() {
            Some(Collection::Introductions)
        } else if wanted == "personals".to_owned() {
            Some(Collection::Personals)
        } else if wanted == "projects".to_owned() {
            Some(Collection::Projects)
        } else if wanted == "skillsoverview".to_owned() {
            Some(Collection::SkillsOverview)
        } else if wanted == "skills".to_owned() {
            Some(Collection::Skills)
        } else if wanted == "socialmedias".to_owned() {
            Some(Collection::SocialMedias)
        } else if wanted == "softskills".to_owned() {
            Some(Collection::SoftSkills)
        } else if wanted == "users".to_owned() {
            Some(Collection::Users)
        } else if wanted == "manifestos".to_owned() {
            Some(Collection::Manifestos)
        } else if wanted == "currentwork".to_owned() {
            Some(Collection::CurrentWork)
        } else if wanted == "blogposts".to_owned() {
            Some(Collection::BlogPosts)
        } else {
            None
        }
    }
}

/// No two collections share a name, so a name stands for one collection
/// at most.
pub proof fn lemma_collection_names_differ(a: Collection, b: Collection)
    ensures
        a.name_text() == b.name_text() <==> a == b,
{
    reveal_strlit("introductions");
    reveal_strlit("personals");
    reveal_strlit("projects");
    reveal_strlit("skillsoverview");
    reveal_strlit("skills");
    reveal_strlit("socialmedias");
    reveal_strlit("softskills");
    reveal_strlit("users");
    reveal_strlit("manifestos");
    reveal_strlit("currentwork");
    reveal_strlit("blogposts");
    assert("personals"@[0] != "blogposts"@[0]);
    assert("softskills"@[0] != "manifestos"@[0]);
    if a != b && a.name_text() == b.name_text() {
        assert(a.name_text().len() == b.name_text().len());
        assert(a.name_text()[0] == b.name_text()[0]);
    }
}

/// A find to issue: the collection to read, and the filter to read it through.
/// No sort, no limit, no paging.
#[derive(Clone, Debug, PartialEq, Eq)]
pub struct Request {
    pub collection: Collection,
    pub filter: Filter,
}

impl Request {
    /// Every document of a collection that belongs to the owner.
    pub fn all(collection: Collection, owner_email: &str) -> (request: Request)
        ensures
            request.collection == collection,
            request.filter@ == owner_conditions(owner_email@),
    {
        Request { collection, filter: Filter::owner(owner_email) }
    }

    /// The documents of a collection that belong to the owner and carry the slug.
    pub fn by_slug(collection: Collection, owner_email: &str, slug: &str) -> (request: Request)
        ensures
            request.collection == collection,
            request.filter@ == slug_conditions(owner_email@, slug@),
    {
        let filter = Filter::owner(owner_email).and("slug", slug);
        assert(filter@ =~= slug_conditions(owner_email@, slug@));
        Request { collection, filter }
    }
}

/// An open connection: the database to read, and a line to write out.
#[derive(Clone, Debug, PartialEq, Eq)]
pub struct Connected {
    pub database: String,
    pub notice: String,
}

/// Takes up the outcome of opening the connection. An open connection is
/// handed back with the database to read, `personal`, and a line to write
/// out; a failed one is a connection error that carries the cause.
pub fn connect_to_database<C>(attempt: Result<C, String>) -> (r: Result<(C, Connected), FetchError>)
    ensures
        match attempt {
            Ok(connection) => r matches Ok((handed, connected)) && handed == connection
                && connected.database@ == "personal"@ && connected.notice@
                == "Connected to MongoDB"@,
            Err(cause) => r matches Err(error) && error@ == FetchFailure::Connection(cause@),
        },
{
    match attempt {
        Ok(connection) => Ok(
            (
                connection,
                Connected {
                    database: "personal".to_owned(),
                    notice: "Connected to MongoDB".to_owned(),
                },
            ),
        ),
        Err(cause) => Err(FetchError::Connection(cause)),
    }
}

/// The line to write out for a failed fetch: one for a failed connection,
/// none for a failed query.
pub fn failure_notice(error: &FetchError) -> (notice: Option<String>)
    ensures
        match error@ {
            FetchFailure::Connection(cause) => notice matches Some(line) && line@
                == "Error connecting to MongoDB: "@ + cause,
            FetchFailure::Query(_) => notice is None,
        },
{
    match error {
        FetchError::Connection(cause) => {
            let mut line = "Error connecting to MongoDB: ".to_owned();
            line.append(cause.as_str());
            Some(line)
        },
        FetchError::Query(_) => None,
    }
}

/// What the driver reports after moving the cursor once.
#[derive(Debug, PartialEq, Eq)]
pub enum CursorEvent {
    /// The cursor stands on a document.
    Document(Document),
    /// The cursor stands on something that could not be read as a document.
    Undecodable(String),
    /// The cursor has no more documents.
    Exhausted,
    /// Moving the cursor failed.
    Failed(String),
}

/// Mathematical model of [`CursorEvent`].
pub enum EventModel {
    Document(Fields),
    Undecodable(Seq<char>),
    Exhausted,
    Failed(Seq<char>),
}

impl View for CursorEvent {
    type V = EventModel;

    open spec fn view(&self) -> EventModel {
        match self {
            CursorEvent::Document(doc) => EventModel::Document(doc@),
            CursorEvent::Undecodable(cause) => EventModel::Undecodable(cause@),
            CursorEvent::Exhausted => EventModel::Exhausted,
            CursorEvent::Failed(cause) => EventModel::Failed(cause@),
        }
    }
}

/// The documents read so far from an open cursor, in the cursor's order.
#[derive(Debug, PartialEq, Eq)]
pub struct Reading {
    pub documents: Vec<Document>,
}

impl View for Reading {
    type V = Seq<Fields>;

    open spec fn view(&self) -> Seq<Fields> {
        views(self.documents@)
    }
}

/// How a fetch goes on after one move of the cursor.
#[derive(Debug, PartialEq, Eq)]
pub enum Progress {
    /// Move the cursor again, after writing out the line if there is one.
    Continue { reading: Reading, notice: Option<String> },
    /// The fetch is over.
    Finished(Result<Vec<Document>, FetchError>),
}

/// Mathematical model of [`Progress`].
pub enum ProgressModel {
    Continue { documents: Seq<Fields>, notice: Option<Seq<char>> },
    Finished(Result<Seq<Fields>, FetchFailure>),
}

impl View for Progress {
    type V = ProgressModel;

    open spec fn view(&self) -> ProgressModel {
        match self {
            Progress::Continue { reading, notice } => ProgressModel::Continue {
                documents: reading@,
                notice: match notice {
                    Some(line) => Some(line@),
                    None => None,
                },
            },
            Progress::Finished(result) => ProgressModel::Finished(
                match result {
                    Ok(docs) => Ok(views(docs@)),
                    Err(error) => Err(error@),
                },
            ),
        }
    }
}

/// How a fetch that has read `documents` goes on after one move of the
/// cursor. A document is kept. What cannot be read as a document is passed
/// over with a line to write out. The end of the cursor ends the fetch with
/// the documents read. A failed move ends it with a query error.
pub open spec fn after(documents: Seq<Fields>, event: EventModel) -> ProgressModel {
    match event {
        EventModel::Document(doc) => ProgressModel::Continue {
            documents: documents.push(doc),
            notice: None,
        },
        EventModel::Undecodable(cause) => ProgressModel::Continue {
            documents,
            notice: Some("Error deserializing document: "@ + cause),
        },
        EventModel::Exhausted => ProgressModel::Finished(Ok(documents)),
        EventModel::Failed(cause) => ProgressModel::Finished(Err(FetchFailure::Query(cause))),
    }
}

/// How a fetch that has read `documents` ends when the cursor then moves
/// as `events` tell, if it ends within them.
pub open spec fn outcome(documents: Seq<Fields>, events: Seq<EventModel>) -> Option<
    Result<Seq<Fields>, FetchFailure>,
>
    decreases events.len(),
{
    if events.len() == 0 {
        None
    } else {
        match after(documents, events[0]) {
            ProgressModel::Continue { documents: kept, notice: _ } => outcome(kept, events.skip(1)),
            ProgressModel::Finished(result) => Some(result),
        }
    }
}

/// The documents among the events, in order.
pub open spec fn documents_in(events: Seq<EventModel>) -> Seq<Fields>
    decreases events.len(),
{
    if events.len() == 0 {
        Seq::empty()
    } else {
        match events[0] {
            EventModel::Document(doc) => seq![doc] + documents_in(events.skip(1)),
            _ => documents_in(events.skip(1)),
        }
    }
}

/// Takes up the outcome of issuing the find. An open cursor is handed back
/// with a reading that holds no documents yet; a failed find is a query
/// error that carries the cause.
pub fn open_cursor<C>(opened: Result<C, String>) -> (r: Result<(C, Reading), FetchError>)
    ensures
        match opened {
            Ok(cursor) => r matches Ok((handed, reading)) && handed == cursor && reading@
                == Seq::<Fields>::empty(),
            Err(cause) => r matches Err(error) && error@ == FetchFailure::Query(cause@),
        },
{
    match opened {
        Ok(cursor) => {
            let reading = Reading { documents: Vec::new() };
            assert(reading@ =~= Seq::<Fields>::empty());
            Ok((cursor, reading))
        },
        Err(cause) => Err(FetchError::Query(cause)),
    }
}

impl Reading {
    /// Takes up one move of the cursor, as [`after`] tells.
    pub fn step(self, event: CursorEvent) -> (p: Progress)
        ensures
            p@ == after(self@, event@),
    {
        match event {
            CursorEvent::Document(doc) => {
                let mut documents = self.documents;
                documents.push(doc);
                let reading = Reading { documents };
                assert(reading@ =~= self@.push(doc@));
                Progress::Continue { reading, notice: None }
            },
            CursorEvent::Undecodable(cause) => {
                let mut line = "Error deserializing document: ".to_owned();
                line.append(cause.as_str());
                Progress::Continue { reading: self, notice: Some(line) }
            },
            CursorEvent::Exhausted => Progress::Finished(Ok(self.documents)),
            CursorEvent::Failed(cause) => Progress::Finished(Err(FetchError::Query(cause))),
        }
    }
}

/// What cannot be read as a document never ends a fetch: when the cursor
/// gives documents and unreadable entries in any order and then runs out, the
/// fetch succeeds with exactly the documents, in the cursor's order.
pub proof fn lemma_unreadable_entries_are_passed_over(
    documents: Seq<Fields>,
    events: Seq<EventModel>,
)
    requires
        forall|i: int|
            0 <= i < events.len() ==> (#[trigger] events[i]) is Document || events[i] is Undecodable,
    ensures
        outcome(documents, events.push(EventModel::Exhausted)) == Some(
            Ok::<Seq<Fields>, FetchFailure>(documents + documents_in(events)),
        ),
    decreases events.len(),
{
    let all = events.push(EventModel::Exhausted);
    if events.len() == 0 {
        assert(documents + documents_in(events) =~= documents);
    } else {
        let rest = events.skip(1);
        assert(all[0] == events[0]);
        assert(all.skip(1) =~= rest.push(EventModel::Exhausted));
        assert forall|i: int| 0 <= i < rest.len() implies (#[trigger] rest[i]) is Document
            || rest[i] is Undecodable by {
            assert(rest[i] == events[i + 1]);
        }
        match events[0] {
            EventModel::Document(doc) => {
                lemma_unreadable_entries_are_passed_over(documents.push(doc), rest);
                assert(documents.push(doc) + documents_in(rest) =~= documents + documents_in(
                    events,
                ));
            },
            _ => {
                lemma_unreadable_entries_are_passed_over(documents, rest);
            },
        }
    }
}

/// A failed move of the cursor ends the fetch with a query error, whatever
/// was read before it.
pub proof fn lemma_failed_move_ends_fetch(
    documents: Seq<Fields>,
    events: Seq<EventModel>,
    cause: Seq<char>,
    later: Seq<EventModel>,
)
    requires
        forall|i: int|
            0 <= i < events.len() ==> (#[trigger] events[i]) is Document || events[i] is Undecodable,
    ensures
        outcome(documents, events.push(EventModel::Failed(cause)) + later) == Some(
            Err::<Seq<Fields>, FetchFailure>(FetchFailure::Query(cause)),
        ),
    decreases events.len(),
{
    let all = events.push(EventModel::Failed(cause)) + later;
    if events.len() == 0 {
        assert(all[0] == EventModel::Failed(cause));
    } else {
        let rest = events.skip(1);
        assert(all[0] == events[0]);
        assert(all.skip(1) =~= rest.push(EventModel::Failed(cause)) + later);
        assert forall|i: int| 0 <= i < rest.len() implies (#[trigger] rest[i]) is Document
            || rest[i] is Undecodable by {
            assert(rest[i] == events[i + 1]);
        }
        match events[0] {
            EventModel::Document(doc) => {
                lemma_failed_move_ends_fetch(documents.push(doc), rest, cause, later);
            },
            _ => {
                lemma_failed_move_ends_fetch(documents, rest, cause, later);
            },
        }
    }
}

} // verus!

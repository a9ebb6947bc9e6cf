use portfolio_api::blog::BlogPost;
use portfolio_api::content::{ContentBlock, ContentBlockOutput, ContentValue};
use portfolio_api::document::{Document, Value};
use portfolio_api::error::{FetchError, FieldError};
use portfolio_api::fetch::Collection;
use portfolio_api::query::{resolve_first, resolve_list, Context, Operation, Query};
use portfolio_api::records::{
    CurrentWork, Introduction, Manifesto, Personal, Project, Skills, SkillsOverview, SocialMedia,
    SoftSkills, User,
};

fn s(text: &str) -> String {
    text.to_string()
}

fn texts(items: &[&str]) -> Value {
    Value::text_list(items.iter().map(|item| item.to_string()).collect())
}

/// What the store answers to an operation of one owner.
fn answer(stored: Vec<Document>, operation: &Operation, owner_email: &str) -> Vec<Document> {
    operation.request(owner_email).filter.select(stored)
}

fn project_document(email: &str, title: &str) -> Document {
    Document::new()
        .with("email", Value::text(email))
        .with("title", Value::text(title))
        .with("description", Value::text("d"))
        .with("url", Value::text("http://x"))
        .with("backgroundImage", Value::text("img.png"))
}

fn blog_document(email: &str, slug: &str) -> Document {
    let block = Document::new()
        .with("type", Value::text("list"))
        .with("value", texts(&["a", "b"]));
    Document::new()
        .with("email", Value::text(email))
        .with("title", Value::text("Hello World"))
        .with("slug", Value::text(slug))
        .with("author", Value::text("JM"))
        .with("date", Value::text("2024-01-02"))
        .with("content", Value::List(vec![Value::Object(block)]))
        .with("tags", texts(&["rust"]))
        .with("status", Value::text("published"))
        .with("excerpt", Value::text("short"))
        .with("createdAt", Value::text("c"))
        .with("updatedAt", Value::text("u"))
}

fn blog_post(slug: &str) -> BlogPost {
    BlogPost {
        title: s("Hello World"),
        slug: s(slug),
        author: s("JM"),
        date: s("2024-01-02"),
        content: vec![ContentBlock {
            block_type: s("list"),
            value: ContentValue::StringArray(vec![s("a"), s("b")]),
        }],
        tags: vec![s("rust")],
        status: s("published"),
        excerpt: s("short"),
        created_at: s("c"),
        updated_at: s("u"),
    }
}

fn failed(message: &str, details: &str) -> FieldError {
    FieldError { message: s(message), details: s(details) }
}

#[test]
fn projects_of_the_owner_only() {
    let stored = vec![
        project_document("user@example.com", "X"),
        project_document("other@example.com", "Y"),
    ];
    let operation = Operation::Projects;
    assert_eq!(operation.collection(), Collection::Projects);
    assert_eq!(operation.collection().name(), "projects");
    let fetched = answer(stored, &operation, "user@example.com");
    assert_eq!(
        Query::projects(Ok(fetched)),
        Ok(vec![Project {
            email: s("user@example.com"),
            title: s("X"),
            description: s("d"),
            url: s("http://x"),
            background_image: s("img.png"),
        }])
    );
}

#[test]
fn blog_post_by_its_slug() {
    let stored = || {
        vec![
            blog_document("user@example.com", "first-post"),
            blog_document("user@example.com", "hello-world"),
            blog_document("other@example.com", "hello-world-2"),
        ]
    };
    let found = Operation::BlogPost { slug: s("hello-world") };
    assert_eq!(found.collection().name(), "blogposts");
    let fetched = answer(stored(), &found, "user@example.com");
    assert_eq!(fetched.len(), 1);
    assert_eq!(Query::blog_post(Ok(fetched)), Ok(Some(blog_post("hello-world"))));

    let missing = Operation::BlogPost { slug: s("missing") };
    let fetched = answer(stored(), &missing, "user@example.com");
    assert_eq!(fetched.len(), 0);
    assert_eq!(Query::blog_post(Ok(fetched)), Ok(None));
}

#[test]
fn blog_post_of_another_owner_is_not_found() {
    let stored = vec![blog_document("other@example.com", "hello-world")];
    let operation = Operation::BlogPost { slug: s("hello-world") };
    let fetched = answer(stored, &operation, "user@example.com");
    assert_eq!(Query::blog_post(Ok(fetched)), Ok(None));
}

#[test]
fn blog_post_takes_the_first_of_several() {
    let mut second = blog_post("hello-world");
    second.title = s("Hello World");
    let fetched = vec![
        blog_document("user@example.com", "hello-world"),
        blog_document("user@example.com", "hello-again"),
    ];
    assert_eq!(Query::blog_post(Ok(fetched)), Ok(Some(blog_post("hello-world"))));
}

#[test]
fn blog_post_that_does_not_conform_is_absent() {
    let broken = Document::new()
        .with("email", Value::text("user@example.com"))
        .with("slug", Value::text("hello-world"));
    assert_eq!(Query::blog_post(Ok(vec![broken])), Ok(None));
}

#[test]
fn blog_post_does_not_look_past_a_first_that_does_not_conform() {
    let broken = Document::new().with("slug", Value::text("hello-world"));
    let fetched = vec![broken, blog_document("user@example.com", "hello-world")];
    assert_eq!(Query::blog_post(Ok(fetched)), Ok(None));
}

#[test]
fn no_documents_give_empty_lists() {
    assert_eq!(Query::introductions(Ok(vec![])), Ok(vec![]));
    assert_eq!(Query::personals(Ok(vec![])), Ok(vec![]));
    assert_eq!(Query::projects(Ok(vec![])), Ok(vec![]));
    assert_eq!(Query::skills_overview(Ok(vec![])), Ok(vec![]));
    assert_eq!(Query::skills(Ok(vec![])), Ok(vec![]));
    assert_eq!(Query::social_media(Ok(vec![])), Ok(vec![]));
    assert_eq!(Query::soft_skills(Ok(vec![])), Ok(vec![]));
    assert_eq!(Query::users(Ok(vec![])), Ok(vec![]));
    assert_eq!(Query::manifestos(Ok(vec![])), Ok(vec![]));
    assert_eq!(Query::current_work(Ok(vec![])), Ok(vec![]));
    assert_eq!(Query::blog_posts(Ok(vec![])), Ok(vec![]));
    assert_eq!(Query::blog_post(Ok(vec![])), Ok(None));
}

#[test]
fn a_store_without_matching_documents_gives_an_empty_list() {
    let stored = vec![project_document("other@example.com", "Y")];
    let fetched = answer(stored, &Operation::Projects, "user@example.com");
    assert_eq!(Query::projects(Ok(fetched)), Ok(vec![]));
}

#[test]
fn documents_that_do_not_conform_are_left_out_of_lists() {
    let fetched = vec![
        project_document("user@example.com", "one"),
        Document::new().with("email", Value::text("user@example.com")),
        project_document("user@example.com", "two").with("extra", Value::Null),
        Document::new()
            .with("email", Value::text("user@example.com"))
            .with("title", Value::Null)
            .with("description", Value::text("d"))
            .with("url", Value::text("http://x"))
            .with("backgroundImage", Value::text("img.png")),
    ];
    let projects = Query::projects(Ok(fetched)).unwrap();
    let titles: Vec<&str> = projects.iter().map(|project| project.title.as_str()).collect();
    assert_eq!(titles, vec!["one", "two"]);
}

#[test]
fn only_documents_that_do_not_conform_give_an_empty_list() {
    let fetched = vec![Document::new(), Document::new().with("title", Value::Int(1))];
    assert_eq!(Query::introductions(Ok(fetched)), Ok(vec![]));
}

#[test]
fn every_list_operation_converts_its_own_type() {
    let intro = Document::new().with("title", Value::text("Hi")).with("icon", Value::text("w"));
    assert_eq!(
        Query::introductions(Ok(vec![intro])),
        Ok(vec![Introduction { title: s("Hi"), icon: s("w") }])
    );
    let personal = Document::new()
        .with("email", Value::text("e"))
        .with("jobDescription", Value::text("j"))
        .with("lifeStory", Value::text("l"))
        .with("whyDothis", Value::text("w"))
        .with("backgroundUrl", Value::text("b"));
    assert_eq!(
        Query::personals(Ok(vec![personal])),
        Ok(vec![Personal {
            email: s("e"),
            job_description: s("j"),
            life_story: s("l"),
            why_do_this: s("w"),
            background_url: s("b"),
        }])
    );
    let overview = Document::new()
        .with("email", Value::text("e"))
        .with("title", Value::text("t"))
        .with("icon", Value::text("i"));
    assert_eq!(
        Query::skills_overview(Ok(vec![overview])),
        Ok(vec![SkillsOverview { email: s("e"), title: s("t"), icon: s("i") }])
    );
    let skill = Document::new()
        .with("name", Value::text("Rust"))
        .with("mastery", Value::Int(90))
        .with("skillType", Value::text("language"));
    assert_eq!(
        Query::skills(Ok(vec![skill])),
        Ok(vec![Skills { name: s("Rust"), mastery: 90, skill_type: s("language") }])
    );
    let social = Document::new()
        .with("url", Value::text("u"))
        .with("socialMediaType", Value::text("github"));
    assert_eq!(
        Query::social_media(Ok(vec![social])),
        Ok(vec![SocialMedia { url: s("u"), social_media_type: s("github") }])
    );
    let soft = Document::new()
        .with("name", Value::text("n"))
        .with("description", Value::text("d"))
        .with("icon", Value::text("i"));
    assert_eq!(
        Query::soft_skills(Ok(vec![soft])),
        Ok(vec![SoftSkills { name: s("n"), description: s("d"), icon: s("i") }])
    );
    let user = Document::new()
        .with("email", Value::text("e"))
        .with("fullName", Value::text("f"))
        .with("contactNumber", Value::text("c"))
        .with("website", Value::text("w"));
    assert_eq!(
        Query::users(Ok(vec![user])),
        Ok(vec![User { email: s("e"), full_name: s("f"), contact_number: s("c"), website: s("w") }])
    );
    let manifesto = Document::new()
        .with("sectionName", Value::text("s"))
        .with("content", texts(&["a"]))
        .with("order", Value::Int(1));
    assert_eq!(
        Query::manifestos(Ok(vec![manifesto])),
        Ok(vec![Manifesto { section_name: s("s"), content: vec![s("a")], order: 1 }])
    );
    let work = Document::new()
        .with("title", Value::text("t"))
        .with("company", Value::text("c"))
        .with("companyWebsite", Value::text("w"))
        .with("description", texts(&["d"]))
        .with("tags", texts(&["x", "y"]));
    assert_eq!(
        Query::current_work(Ok(vec![work])),
        Ok(vec![CurrentWork {
            title: s("t"),
            company: s("c"),
            company_website: s("w"),
            description: vec![s("d")],
            tags: vec![s("x"), s("y")],
        }])
    );
    assert_eq!(
        Query::blog_posts(Ok(vec![blog_document("e", "hello-world")])),
        Ok(vec![blog_post("hello-world")])
    );
}

#[test]
fn a_blog_post_from_the_list_shows_its_content_flattened() {
    let posts = Query::blog_posts(Ok(vec![blog_document("e", "hello-world")])).unwrap();
    assert_eq!(
        posts[0].content(),
        vec![ContentBlockOutput { block_type: s("list"), value: s("a, b") }]
    );
}

#[test]
fn a_failed_connection_is_told_as_a_field_error() {
    let error = || Err(FetchError::Connection(s("no route to host")));
    assert_eq!(
        Query::introductions(error()),
        Err(failed("Failed to fetch introductions", "no route to host"))
    );
    assert_eq!(
        Query::personals(error()),
        Err(failed("Failed to fetch personals", "no route to host"))
    );
    assert_eq!(
        Query::projects(error()),
        Err(failed("Failed to fetch personals", "no route to host"))
    );
    assert_eq!(
        Query::skills_overview(error()),
        Err(failed("Failed to fetch skills overview", "no route to host"))
    );
    assert_eq!(Query::skills(error()), Err(failed("Failed to fetch skills", "no route to host")));
    assert_eq!(
        Query::social_media(error()),
        Err(failed("Failed to fetch social medias", "no route to host"))
    );
    assert_eq!(
        Query::soft_skills(error()),
        Err(failed("Failed to fetch soft skills", "no route to host"))
    );
    assert_eq!(Query::users(error()), Err(failed("Failed to fetch user", "no route to host")));
    assert_eq!(
        Query::manifestos(error()),
        Err(failed("Failed to fetch manifestos", "no route to host"))
    );
    assert_eq!(
        Query::current_work(error()),
        Err(failed("Failed to fetch current work", "no route to host"))
    );
    assert_eq!(
        Query::blog_posts(error()),
        Err(failed("Failed to fetch blog posts", "no route to host"))
    );
    assert_eq!(
        Query::blog_post(error()),
        Err(failed("Failed to fetch blog post", "no route to host"))
    );
}

#[test]
fn a_failed_query_is_told_as_a_field_error() {
    assert_eq!(
        Query::skills(Err(FetchError::Query(s("bad filter")))),
        Err(failed("Failed to fetch skills", "bad filter"))
    );
    assert_eq!(
        Query::blog_post(Err(FetchError::Query(s("bad filter")))),
        Err(failed("Failed to fetch blog post", "bad filter"))
    );
}

#[test]
fn the_resolvers_behind_the_operations() {
    let listed: Result<Vec<Introduction>, FieldError> =
        resolve_list(Err(FetchError::Query(s("cause"))), "message");
    assert_eq!(listed, Err(failed("message", "cause")));
    let first: Result<Option<Introduction>, FieldError> =
        resolve_first(Err(FetchError::Connection(s("cause"))), "message");
    assert_eq!(first, Err(failed("message", "cause")));
    let doc = || Document::new().with("title", Value::text("Hi")).with("icon", Value::text("w"));
    let listed: Result<Vec<Introduction>, FieldError> = resolve_list(Ok(vec![doc(), doc()]), "m");
    assert_eq!(listed.unwrap().len(), 2);
    let first: Result<Option<Introduction>, FieldError> = resolve_first(Ok(vec![doc()]), "m");
    assert_eq!(first, Ok(Some(Introduction { title: s("Hi"), icon: s("w") })));
}

#[test]
fn every_operation_names_its_collection_and_its_message() {
    let table = vec![
        (Operation::Introductions, "introductions", "Failed to fetch introductions"),
        (Operation::Personals, "personals", "Failed to fetch personals"),
        (Operation::Projects, "projects", "Failed to fetch personals"),
        (Operation::SkillsOverview, "skillsoverview", "Failed to fetch skills overview"),
        (Operation::Skills, "skills", "Failed to fetch skills"),
        (Operation::SocialMedia, "socialmedias", "Failed to fetch social medias"),
        (Operation::SoftSkills, "softskills", "Failed to fetch soft skills"),
        (Operation::Users, "users", "Failed to fetch user"),
        (Operation::Manifestos, "manifestos", "Failed to fetch manifestos"),
        (Operation::CurrentWork, "currentwork", "Failed to fetch current work"),
        (Operation::BlogPosts, "blogposts", "Failed to fetch blog posts"),
        (Operation::BlogPost { slug: s("x") }, "blogposts", "Failed to fetch blog post"),
    ];
    for (operation, collection, message) in table {
        assert_eq!(operation.collection().name(), collection);
        assert_eq!(operation.failure_message(), message);
        assert_eq!(operation.request("me@example.com").collection.name(), collection);
    }
}

#[test]
fn the_context_holds_nothing() {
    let context = Context::default();
    let copy = context;
    assert_eq!(format!("{:?}", copy), "Context");
    assert_eq!(format!("{:?}", Query), "Query");
}

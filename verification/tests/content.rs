use portfolio_api::blog::BlogPost;
use portfolio_api::content::{join, ContentBlock, ContentBlockOutput, ContentValue};
use portfolio_api::document::{Document, Value};

fn s(text: &str) -> String {
    text.to_string()
}

fn texts(items: &[&str]) -> Value {
    Value::text_list(items.iter().map(|item| item.to_string()).collect())
}

#[test]
fn flattening_a_string_gives_the_string() {
    assert_eq!(ContentValue::String(s("a, b")).flatten(), "a, b");
    assert_eq!(ContentValue::String(s("")).flatten(), "");
    assert_eq!(ContentValue::String(s("one line")).flatten(), "one line");
}

#[test]
fn flattening_twice_is_flattening_once() {
    let list = ContentValue::StringArray(vec![s("a"), s("b")]);
    let once = list.flatten();
    let twice = ContentValue::String(once.clone()).flatten();
    assert_eq!(once, twice);
}

#[test]
fn flattening_a_list_joins_with_comma_and_space() {
    assert_eq!(ContentValue::StringArray(vec![s("a"), s("b")]).flatten(), "a, b");
    assert_eq!(ContentValue::StringArray(vec![s("a"), s("b"), s("c")]).flatten(), "a, b, c");
}

#[test]
fn flattening_a_list_of_one_gives_the_item() {
    assert_eq!(ContentValue::StringArray(vec![s("only")]).flatten(), "only");
}

#[test]
fn flattening_the_empty_list_gives_the_empty_string() {
    assert_eq!(ContentValue::StringArray(vec![]).flatten(), "");
}

#[test]
fn flattening_keeps_empty_items() {
    assert_eq!(ContentValue::StringArray(vec![s(""), s("")]).flatten(), ", ");
    assert_eq!(ContentValue::StringArray(vec![s("a"), s(""), s("b")]).flatten(), "a, , b");
}

#[test]
fn join_puts_the_separator_between_neighbours_only() {
    assert_eq!(join(&vec![s("x"), s("y"), s("z")], "-"), "x-y-z");
    assert_eq!(join(&vec![s("x")], "-"), "x");
    assert_eq!(join(&vec![], "-"), "");
    assert_eq!(join(&vec![s("x"), s("y")], ""), "xy");
}

#[test]
fn a_content_value_is_a_text_or_a_list_of_texts() {
    assert_eq!(
        ContentValue::from_value(&Value::text("hello")),
        Some(ContentValue::String(s("hello")))
    );
    assert_eq!(
        ContentValue::from_value(&texts(&["a", "b"])),
        Some(ContentValue::StringArray(vec![s("a"), s("b")]))
    );
    assert_eq!(ContentValue::from_value(&texts(&[])), Some(ContentValue::StringArray(vec![])));
    assert_eq!(ContentValue::from_value(&Value::Int(1)), None);
    assert_eq!(ContentValue::from_value(&Value::Null), None);
    assert_eq!(ContentValue::from_value(&Value::List(vec![Value::Int(1)])), None);
    assert_eq!(ContentValue::from_value(&Value::Object(Document::new())), None);
}

#[test]
fn a_block_is_read_from_a_nested_document() {
    let value = Value::Object(
        Document::new().with("type", Value::text("code")).with("value", texts(&["a", "b"])),
    );
    assert_eq!(
        ContentBlock::from_value(&value),
        Some(ContentBlock {
            block_type: s("code"),
            value: ContentValue::StringArray(vec![s("a"), s("b")]),
        })
    );
    assert_eq!(ContentBlock::from_value(&Value::text("code")), None);
    assert_eq!(ContentBlock::from_value(&Value::Object(Document::new())), None);
}

#[test]
fn a_list_of_blocks_is_all_or_nothing() {
    let block = |tag: &str| {
        Value::Object(Document::new().with("type", Value::text(tag)).with("value", Value::text("v")))
    };
    assert_eq!(
        ContentBlock::list_from_value(&Value::List(vec![block("a"), block("b")])),
        Some(vec![
            ContentBlock { block_type: s("a"), value: ContentValue::String(s("v")) },
            ContentBlock { block_type: s("b"), value: ContentValue::String(s("v")) },
        ])
    );
    assert_eq!(ContentBlock::list_from_value(&Value::List(vec![block("a"), Value::Null])), None);
    assert_eq!(ContentBlock::list_from_value(&Value::List(vec![])), Some(vec![]));
    assert_eq!(ContentBlock::list_from_value(&block("a")), None);
}

#[test]
fn a_block_keeps_its_type_and_flattens_its_value() {
    let block =
        ContentBlock { block_type: s("list"), value: ContentValue::StringArray(vec![s("a"), s("b")]) };
    assert_eq!(block.output(), ContentBlockOutput { block_type: s("list"), value: s("a, b") });
}

fn post() -> BlogPost {
    BlogPost {
        title: s("Hello World"),
        slug: s("hello-world"),
        author: s("JM"),
        date: s("2024-01-02"),
        content: vec![
            ContentBlock { block_type: s("paragraph"), value: ContentValue::String(s("Hello")) },
            ContentBlock {
                block_type: s("list"),
                value: ContentValue::StringArray(vec![s("a"), s("b")]),
            },
            ContentBlock { block_type: s("empty"), value: ContentValue::StringArray(vec![]) },
        ],
        tags: vec![s("rust"), s("verus")],
        status: s("published"),
        excerpt: s("short"),
        created_at: s("2024-01-01T00:00:00Z"),
        updated_at: s("2024-01-03T00:00:00Z"),
    }
}

#[test]
fn a_post_shows_its_content_flattened_block_by_block() {
    let expected = vec![
        ContentBlockOutput { block_type: s("paragraph"), value: s("Hello") },
        ContentBlockOutput { block_type: s("list"), value: s("a, b") },
        ContentBlockOutput { block_type: s("empty"), value: s("") },
    ];
    assert_eq!(post().content(), expected);
    assert_eq!(post().content_blocks(), expected);
}

#[test]
fn a_post_hands_out_its_fields() {
    let post = post();
    assert_eq!(post.title(), "Hello World");
    assert_eq!(post.slug(), "hello-world");
    assert_eq!(post.author(), "JM");
    assert_eq!(post.date(), "2024-01-02");
    assert_eq!(post.tags(), &vec![s("rust"), s("verus")]);
    assert_eq!(post.status(), "published");
    assert_eq!(post.excerpt(), "short");
    assert_eq!(post.created_at(), "2024-01-01T00:00:00Z");
    assert_eq!(post.updated_at(), "2024-01-03T00:00:00Z");
}

use collection_store::store::collection_file_name;
use collection_store::store::load_collection;
use collection_store::store::prepare_save;
use collection_store::store::KnownCollection;
use collection_store::store::StoreError;

fn object(fields: Vec<(&str, serde_json::Value)>) -> serde_json::Value {
    let mut map = serde_json::Map::new();
    for (key, value) in fields {
        map.insert(key.to_string(), value);
    }
    serde_json::Value::Object(map)
}

#[test]
fn fresh_collection_is_empty() {
    // An absent file is the empty collection, not an error.
    let loaded = load_collection(None).unwrap();
    assert!(loaded.is_empty());
}

#[test]
fn templates_round_trip_single_document() {
    let doc = object(vec![
        ("id", serde_json::Value::from(1)),
        ("name", serde_json::Value::from("Sprint Review")),
    ]);
    let docs = vec![doc.clone()];

    let plan = prepare_save("templates", &docs);
    assert_eq!(plan.file_name, "templates.json");

    let loaded = load_collection(Some(plan.text)).unwrap();
    assert_eq!(loaded.len(), 1);
    assert_eq!(loaded[0], doc);
}

#[test]
fn empty_collection_round_trip() {
    let docs: Vec<serde_json::Value> = vec![];

    let plan = prepare_save("topics", &docs);
    assert_eq!(plan.file_name, "topics.json");
    assert_eq!(plan.text, "[]");

    let loaded = load_collection(Some(plan.text)).unwrap();
    assert!(loaded.is_empty());
}

#[test]
fn save_is_full_replacement() {
    let first = vec![
        object(vec![("id", serde_json::Value::from(1))]),
        object(vec![("id", serde_json::Value::from(2))]),
    ];
    let second = vec![object(vec![("id", serde_json::Value::from(3))])];

    let _earlier = prepare_save("topics", &first);
    let plan = prepare_save("topics", &second);

    // The later save's text is the whole new file: nothing of the first
    // save survives in it.
    let loaded = load_collection(Some(plan.text)).unwrap();
    assert_eq!(loaded, second);
}

#[test]
fn nested_documents_round_trip() {
    let inner = object(vec![
        ("flag", serde_json::Value::Bool(true)),
        ("note", serde_json::Value::Null),
        ("weight", serde_json::Value::from(2.5)),
    ]);
    let doc = object(vec![
        ("title", serde_json::Value::from("retro")),
        (
            "steps",
            serde_json::Value::Array(vec![
                serde_json::Value::from(1),
                serde_json::Value::from(-2),
                inner,
            ]),
        ),
    ]);
    let docs = vec![doc.clone(), serde_json::Value::from("loose string")];

    let plan = prepare_save("templates", &docs);
    let loaded = load_collection(Some(plan.text)).unwrap();
    assert_eq!(loaded, docs);
}

#[test]
fn field_order_does_not_matter() {
    let one_way = object(vec![
        ("a", serde_json::Value::from(1)),
        ("b", serde_json::Value::from(2)),
    ]);
    let other_way = object(vec![
        ("b", serde_json::Value::from(2)),
        ("a", serde_json::Value::from(1)),
    ]);

    let plan = prepare_save("templates", &vec![one_way]);
    let loaded = load_collection(Some(plan.text)).unwrap();
    assert_eq!(loaded, vec![other_way]);
}

#[test]
fn float_values_round_trip_exactly() {
    let docs = vec![object(vec![
        ("tenth", serde_json::Value::from(0.1)),
        ("awkward", serde_json::Value::from(122.416462916541504)),
        ("tiny", serde_json::Value::from(2.2250738585072014e-308)),
        ("huge", serde_json::Value::from(1.7976931348623157e308)),
    ])];

    let plan = prepare_save("templates", &docs);
    let loaded = load_collection(Some(plan.text)).unwrap();
    assert_eq!(loaded, docs);
}

#[test]
fn nesting_beyond_the_parser_limit_reads_as_malformed() {
    // The renderer accepts any depth, but the parser refuses text nested
    // beyond its recursion limit: a get after such a save reports the file
    // as malformed rather than loading something else.
    let mut doc = serde_json::Value::from(1);
    for _ in 0..200 {
        doc = serde_json::Value::Array(vec![doc]);
    }

    let plan = prepare_save("templates", &vec![doc]);
    let loaded = load_collection(Some(plan.text));
    assert!(matches!(loaded, Err(StoreError::MalformedDocument { .. })));
}

#[test]
fn malformed_file_is_an_error() {
    let truncated = load_collection(Some("[{\"id\": 1".to_string()));
    assert!(matches!(truncated, Err(StoreError::MalformedDocument { .. })));

    let foreign = load_collection(Some("not a document".to_string()));
    assert!(matches!(foreign, Err(StoreError::MalformedDocument { .. })));

    // Valid JSON, but not a sequence of documents.
    let not_a_sequence = load_collection(Some("{\"id\": 1}".to_string()));
    assert!(matches!(not_a_sequence, Err(StoreError::MalformedDocument { .. })));
}

#[test]
fn parsing_reads_the_text() {
    let loaded = load_collection(Some("[1, 2]".to_string())).unwrap();
    assert_eq!(
        loaded,
        vec![serde_json::Value::from(1), serde_json::Value::from(2)]
    );
}

#[test]
fn error_messages_name_the_failure() {
    let resolution = StoreError::DirectoryResolution {
        message: "sandbox denied".to_string(),
    };
    assert_eq!(
        resolution.message(),
        "could not resolve the application data directory: sandbox denied"
    );

    let read = StoreError::IoRead { message: "permission denied".to_string() };
    assert!(read.message().starts_with("could not read the collection file: "));
    assert!(read.message().ends_with("permission denied"));

    let write = StoreError::IoWrite { message: "disk full".to_string() };
    assert!(write.message().starts_with("could not write the collection file: "));

    let malformed = load_collection(Some("nonsense".to_string())).unwrap_err();
    assert!(malformed
        .message()
        .starts_with("the collection file does not hold a valid sequence of documents: "));
}

#[test]
fn collection_file_names() {
    assert_eq!(collection_file_name("templates"), "templates.json");
    assert_eq!(collection_file_name("topics"), "topics.json");
    assert_eq!(collection_file_name("notes"), "notes.json");
}

#[test]
fn known_collection_names() {
    assert_eq!(KnownCollection::Templates.name(), "templates");
    assert_eq!(KnownCollection::Topics.name(), "topics");
    assert_eq!(
        collection_file_name(KnownCollection::Topics.name()),
        "topics.json"
    );
}

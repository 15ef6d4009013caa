use avored_cms::codec::{decode_field_value, from_document, to_document, DecodeError};
use avored_cms::document::{DocEntry, DocValue, Document, Timestamp};
use avored_cms::field::{
    PageDataType, PageFieldContentType, PageFieldDataOption, PageFieldModel, PageFieldType,
};
use avored_cms::page::NewPageModel;

fn s(x: &str) -> String {
    x.to_string()
}

fn entry(k: &str, v: DocValue) -> DocEntry {
    DocEntry { key: s(k), value: v }
}

fn ts(secs: i64) -> Timestamp {
    Timestamp { secs, nanos: 0 }
}

fn option(label: &str, value: &str) -> PageFieldDataOption {
    PageFieldDataOption { label: s(label), value: s(value) }
}

fn sample_page() -> NewPageModel {
    NewPageModel {
        id: s("page:1"),
        name: s("Home"),
        identifier: s("home"),
        page_fields: vec![
            PageFieldModel {
                name: s("Title"),
                identifier: s("title"),
                data_type: PageDataType::Text,
                field_type: PageFieldType::Plain,
                field_content: PageFieldContentType::Text(s("Welcome")),
            },
            PageFieldModel {
                name: s("Count"),
                identifier: s("count"),
                data_type: PageDataType::Int,
                field_type: PageFieldType::Plain,
                field_content: PageFieldContentType::Int(-42),
            },
            PageFieldModel {
                name: s("Colour"),
                identifier: s("colour"),
                data_type: PageDataType::Text,
                field_type: PageFieldType::Select,
                field_content: PageFieldContentType::Options(vec![
                    option("Red", "red"),
                    option("Green", "green"),
                    option("Blue", "blue"),
                ]),
            },
            PageFieldModel {
                name: s("Body"),
                identifier: s("body"),
                data_type: PageDataType::Text,
                field_type: PageFieldType::Textarea,
                field_content: PageFieldContentType::Text(s("Long text")),
            },
        ],
        created_at: ts(1_700_000_000),
        updated_at: ts(1_700_000_500),
        created_by: s("admin@example.com"),
        updated_by: s("editor@example.com"),
    }
}

fn header_entries() -> Vec<DocEntry> {
    vec![
        entry("id", DocValue::Str(s("page:9"))),
        entry("name", DocValue::Str(s("About"))),
        entry("identifier", DocValue::Str(s("about"))),
        entry("created_at", DocValue::Datetime(ts(10))),
        entry("updated_at", DocValue::Datetime(ts(20))),
        entry("created_by", DocValue::Str(s("a@b.c"))),
        entry("updated_by", DocValue::Str(s("d@e.f"))),
    ]
}

fn title_field_doc() -> DocValue {
    DocValue::Object(vec![
        entry("name", DocValue::Str(s("Title"))),
        entry("identifier", DocValue::Str(s("title"))),
        entry("data_type", DocValue::Str(s("TEXT"))),
        entry("field_type", DocValue::Str(s("PLAIN"))),
        entry("field_content", DocValue::Str(s("Welcome"))),
    ])
}

#[test]
fn round_trip_keeps_page_and_field_order() {
    let p = sample_page();
    let doc = to_document(&p);
    assert_eq!(from_document(&doc), Ok(p));
}

#[test]
fn round_trip_page_without_fields() {
    let mut p = sample_page();
    p.page_fields = vec![];
    assert_eq!(from_document(&to_document(&p)), Ok(p));
}

#[test]
fn encoding_twice_gives_identical_documents() {
    let p = sample_page();
    assert_eq!(to_document(&p), to_document(&p));
}

#[test]
fn encoded_document_layout() {
    let p = sample_page();
    let doc = to_document(&p);
    let keys: Vec<&str> = doc.entries.iter().map(|e| e.key.as_str()).collect();
    assert_eq!(
        keys,
        vec!["id", "name", "identifier", "page_fields", "created_at", "updated_at", "created_by", "updated_by"]
    );
    assert_eq!(doc.entries[4].value, DocValue::Datetime(ts(1_700_000_000)));
    match &doc.entries[3].value {
        DocValue::Array(items) => {
            assert_eq!(items.len(), 4);
            assert_eq!(
                items[1],
                DocValue::Object(vec![
                    entry("name", DocValue::Str(s("Count"))),
                    entry("identifier", DocValue::Str(s("count"))),
                    entry("data_type", DocValue::Str(s("INT"))),
                    entry("field_type", DocValue::Str(s("PLAIN"))),
                    entry("field_content", DocValue::Int(-42)),
                ])
            );
            assert_eq!(
                items[2],
                DocValue::Object(vec![
                    entry("name", DocValue::Str(s("Colour"))),
                    entry("identifier", DocValue::Str(s("colour"))),
                    entry("data_type", DocValue::Str(s("TEXT"))),
                    entry("field_type", DocValue::Str(s("SELECT"))),
                    entry(
                        "field_content",
                        DocValue::Array(vec![
                            DocValue::Object(vec![
                                entry("label", DocValue::Str(s("Red"))),
                                entry("value", DocValue::Str(s("red"))),
                            ]),
                            DocValue::Object(vec![
                                entry("label", DocValue::Str(s("Green"))),
                                entry("value", DocValue::Str(s("green"))),
                            ]),
                            DocValue::Object(vec![
                                entry("label", DocValue::Str(s("Blue"))),
                                entry("value", DocValue::Str(s("blue"))),
                            ]),
                        ])
                    ),
                ])
            );
        }
        other => panic!("page_fields is not an array: {:?}", other),
    }
}

#[test]
fn missing_page_fields_decodes_to_empty_fields() {
    let doc = Document { entries: header_entries() };
    let p = from_document(&doc).unwrap();
    assert!(p.page_fields.is_empty());
    assert_eq!(p.id, "page:9");
    assert_eq!(p.name, "About");
    assert_eq!(p.identifier, "about");
    assert_eq!(p.created_at, ts(10));
    assert_eq!(p.updated_at, ts(20));
    assert_eq!(p.created_by, "a@b.c");
    assert_eq!(p.updated_by, "d@e.f");
}

#[test]
fn null_page_fields_decodes_to_empty_fields() {
    let mut es = header_entries();
    es.push(entry("page_fields", DocValue::Null));
    let p = from_document(&Document { entries: es }).unwrap();
    assert!(p.page_fields.is_empty());
}

#[test]
fn non_array_page_fields_is_a_type_mismatch() {
    let mut es = header_entries();
    es.push(entry("page_fields", DocValue::Str(s("oops"))));
    assert_eq!(
        from_document(&Document { entries: es }),
        Err(DecodeError::TypeMismatch(s("page_fields")))
    );
}

#[test]
fn malformed_element_is_skipped() {
    let mut es = header_entries();
    es.push(entry(
        "page_fields",
        DocValue::Array(vec![title_field_doc(), DocValue::Int(7)]),
    ));
    let p = from_document(&Document { entries: es }).unwrap();
    assert_eq!(
        p.page_fields,
        vec![PageFieldModel {
            name: s("Title"),
            identifier: s("title"),
            data_type: PageDataType::Text,
            field_type: PageFieldType::Plain,
            field_content: PageFieldContentType::Text(s("Welcome")),
        }]
    );
}

#[test]
fn missing_required_attribute_fails() {
    let es: Vec<DocEntry> = header_entries().into_iter().filter(|e| e.key != "name").collect();
    assert_eq!(
        from_document(&Document { entries: es }),
        Err(DecodeError::MissingField(s("name")))
    );
}

#[test]
fn wrong_typed_required_attribute_fails() {
    let mut es = header_entries();
    es[0] = entry("id", DocValue::Int(9));
    assert_eq!(
        from_document(&Document { entries: es }),
        Err(DecodeError::MissingField(s("id")))
    );
    let mut es = header_entries();
    es[4] = entry("updated_at", DocValue::Str(s("yesterday")));
    assert_eq!(
        from_document(&Document { entries: es }),
        Err(DecodeError::MissingField(s("updated_at")))
    );
}

#[test]
fn first_failing_attribute_is_reported() {
    let es: Vec<DocEntry> = vec![entry("name", DocValue::Str(s("x")))];
    assert_eq!(
        from_document(&Document { entries: es }),
        Err(DecodeError::MissingField(s("id")))
    );
}

#[test]
fn unknown_or_missing_types_default() {
    let d = DocValue::Object(vec![
        entry("name", DocValue::Str(s("N"))),
        entry("identifier", DocValue::Str(s("n"))),
        entry("data_type", DocValue::Str(s("FLOAT"))),
        entry("field_content", DocValue::Str(s("v"))),
    ]);
    assert_eq!(
        decode_field_value(&d),
        Some(PageFieldModel {
            name: s("N"),
            identifier: s("n"),
            data_type: PageDataType::Text,
            field_type: PageFieldType::Plain,
            field_content: PageFieldContentType::Text(s("v")),
        })
    );
}

#[test]
fn content_of_the_wrong_shape_skips_the_field() {
    let d = DocValue::Object(vec![
        entry("name", DocValue::Str(s("N"))),
        entry("identifier", DocValue::Str(s("n"))),
        entry("data_type", DocValue::Str(s("TEXT"))),
        entry("field_type", DocValue::Str(s("RADIO"))),
        entry("field_content", DocValue::Str(s("v"))),
    ]);
    assert_eq!(decode_field_value(&d), None);
    let bad_option = DocValue::Object(vec![
        entry("name", DocValue::Str(s("N"))),
        entry("identifier", DocValue::Str(s("n"))),
        entry("field_type", DocValue::Str(s("RADIO"))),
        entry(
            "field_content",
            DocValue::Array(vec![DocValue::Object(vec![entry("label", DocValue::Str(s("L")))])]),
        ),
    ]);
    assert_eq!(decode_field_value(&bad_option), None);
    assert_eq!(decode_field_value(&DocValue::Null), None);
}

#[test]
fn int_field_reads_an_int_leaf() {
    let d = DocValue::Object(vec![
        entry("name", DocValue::Str(s("Age"))),
        entry("identifier", DocValue::Str(s("age"))),
        entry("data_type", DocValue::Str(s("INT"))),
        entry("field_type", DocValue::Str(s("PLAIN"))),
        entry("field_content", DocValue::Int(i64::MAX)),
    ]);
    assert_eq!(
        decode_field_value(&d).map(|f| f.field_content),
        Some(PageFieldContentType::Int(i64::MAX))
    );
}

#[test]
fn first_occurrence_of_a_key_wins() {
    let mut es = header_entries();
    es.push(entry("name", DocValue::Str(s("Second"))));
    let p = from_document(&Document { entries: es }).unwrap();
    assert_eq!(p.name, "About");
}

use book_search::codec::{decode, encode, Book, StoredDoc, StoredValue};
use book_search::errors::SearchError;
use book_search::registry::FieldId;

fn sample_book() -> Book {
    Book {
        id: 42,
        title: "The Art of Computer Programming".to_string(),
        author: "Donald Knuth".to_string(),
        publisher: "Addison-Wesley".to_string(),
        extension: "pdf".to_string(),
        filesize: 104857600,
        language: "English".to_string(),
        year: 1968,
        pages: 672,
        isbn: "9780201896831".to_string(),
        ipfs_cid: "QmSample".to_string(),
    }
}

fn doc_with(entries: Vec<(FieldId, StoredValue)>) -> StoredDoc {
    StoredDoc { entries }
}

#[test]
fn round_trip_preserves_record() {
    let book = sample_book();
    let decoded = decode(&encode(&book)).expect("well-formed document must decode");
    assert_eq!(decoded, book);
    assert_eq!(decoded.id, 42);
    assert_eq!(decoded.title, "The Art of Computer Programming");
}

#[test]
fn round_trip_preserves_id_and_title_with_empty_optionals() {
    let book = Book {
        id: 7,
        title: "t".to_string(),
        author: String::new(),
        publisher: String::new(),
        extension: String::new(),
        filesize: 0,
        language: String::new(),
        year: 0,
        pages: 0,
        isbn: String::new(),
        ipfs_cid: String::new(),
    };
    let decoded = decode(&encode(&book)).expect("well-formed document must decode");
    assert_eq!(decoded, book);
}

#[test]
fn missing_optional_strings_decode_to_empty() {
    let doc = doc_with(vec![
        (FieldId::Id, StoredValue::UInt(1)),
        (FieldId::Title, StoredValue::Text("only title".to_string())),
    ]);
    let book = decode(&doc).expect("optional fields may be absent");
    assert_eq!(book.author, "");
    assert_eq!(book.publisher, "");
    assert_eq!(book.extension, "");
    assert_eq!(book.language, "");
    assert_eq!(book.isbn, "");
    assert_eq!(book.ipfs_cid, "");
}

#[test]
fn null_optional_strings_decode_to_empty() {
    let doc = doc_with(vec![
        (FieldId::Id, StoredValue::UInt(1)),
        (FieldId::Title, StoredValue::Text("t".to_string())),
        (FieldId::Author, StoredValue::Null),
        (FieldId::Publisher, StoredValue::Null),
        (FieldId::Extension, StoredValue::Null),
        (FieldId::Language, StoredValue::Null),
        (FieldId::Isbn, StoredValue::Null),
        (FieldId::IpfsCid, StoredValue::Null),
    ]);
    let book = decode(&doc).expect("null optional fields are tolerated");
    assert_eq!(book.author, "");
    assert_eq!(book.publisher, "");
    assert_eq!(book.extension, "");
    assert_eq!(book.language, "");
    assert_eq!(book.isbn, "");
    assert_eq!(book.ipfs_cid, "");
}

#[test]
fn absent_or_malformed_numerics_decode_to_zero() {
    let doc = doc_with(vec![
        (FieldId::Id, StoredValue::UInt(1)),
        (FieldId::Title, StoredValue::Text("t".to_string())),
        (FieldId::Filesize, StoredValue::Text("not a number".to_string())),
        (FieldId::Pages, StoredValue::Null),
        // year is absent entirely
    ]);
    let book = decode(&doc).expect("malformed numerics are tolerated");
    assert_eq!(book.filesize, 0);
    assert_eq!(book.year, 0);
    assert_eq!(book.pages, 0);
}

#[test]
fn missing_id_is_schema_integrity_error() {
    let doc = doc_with(vec![(FieldId::Title, StoredValue::Text("t".to_string()))]);
    assert_eq!(
        decode(&doc),
        Err(SearchError::SchemaIntegrity(FieldId::Id))
    );
}

#[test]
fn missing_title_is_schema_integrity_error() {
    let doc = doc_with(vec![(FieldId::Id, StoredValue::UInt(5))]);
    assert_eq!(
        decode(&doc),
        Err(SearchError::SchemaIntegrity(FieldId::Title))
    );
}

#[test]
fn empty_document_reports_missing_id_first() {
    let doc = doc_with(vec![]);
    assert_eq!(
        decode(&doc),
        Err(SearchError::SchemaIntegrity(FieldId::Id))
    );
}

#[test]
fn first_stored_value_wins_for_repeated_fields() {
    let doc = doc_with(vec![
        (FieldId::Id, StoredValue::UInt(1)),
        (FieldId::Title, StoredValue::Text("first".to_string())),
        (FieldId::Title, StoredValue::Text("second".to_string())),
    ]);
    let book = decode(&doc).expect("document with id and title decodes");
    assert_eq!(book.title, "first");
}

#[test]
fn mistyped_required_values_fall_back_to_defaults() {
    // The required fields must be present; a present but mistyped value is
    // read tolerantly like the engine's typed accessors do.
    let doc = doc_with(vec![
        (FieldId::Id, StoredValue::Text("not numeric".to_string())),
        (FieldId::Title, StoredValue::UInt(9)),
    ]);
    let book = decode(&doc).expect("present required fields decode");
    assert_eq!(book.id, 0);
    assert_eq!(book.title, "");
}

#[test]
fn default_book_is_all_zero_and_empty() {
    let b = Book::default();
    assert_eq!(b.id, 0);
    assert_eq!(b.title, "");
    assert_eq!(b.author, "");
    assert_eq!(b.publisher, "");
    assert_eq!(b.extension, "");
    assert_eq!(b.filesize, 0);
    assert_eq!(b.language, "");
    assert_eq!(b.year, 0);
    assert_eq!(b.pages, 0);
    assert_eq!(b.isbn, "");
    assert_eq!(b.ipfs_cid, "");
}

#[test]
fn only_query_syntax_errors_are_recoverable() {
    assert!(SearchError::QuerySyntax.is_recoverable());
    assert!(!SearchError::Configuration.is_recoverable());
    assert!(!SearchError::SchemaIntegrity(FieldId::Id).is_recoverable());
}

#[test]
fn error_descriptions_name_the_failure() {
    assert_eq!(
        SearchError::QuerySyntax.describe(),
        "malformed query syntax"
    );
    assert_eq!(
        SearchError::Configuration.describe(),
        "index directory missing or invalid"
    );
    assert_eq!(
        SearchError::SchemaIntegrity(FieldId::Title).describe(),
        "stored document lacks a required field"
    );
}

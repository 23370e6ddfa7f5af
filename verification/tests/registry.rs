use book_search::registry::{
    all_fields, field_name, field_policy, query_fields, FieldId, IndexMode, ValueKind,
};

#[test]
fn registry_declares_exactly_eleven_fields_in_schema_order() {
    let fields = all_fields();
    assert_eq!(
        fields,
        vec![
            FieldId::Id,
            FieldId::Title,
            FieldId::Author,
            FieldId::Publisher,
            FieldId::Extension,
            FieldId::Filesize,
            FieldId::Language,
            FieldId::Year,
            FieldId::Pages,
            FieldId::Isbn,
            FieldId::IpfsCid,
        ]
    );
}

#[test]
fn field_names_match_the_stored_schema() {
    let names: Vec<&str> = all_fields().into_iter().map(field_name).collect();
    assert_eq!(
        names,
        vec![
            "id",
            "title",
            "author",
            "publisher",
            "extension",
            "filesize",
            "language",
            "year",
            "pages",
            "isbn",
            "ipfs_cid",
        ]
    );
}

#[test]
fn only_id_and_title_are_required() {
    for f in all_fields() {
        let required = field_policy(f).required;
        assert_eq!(required, f == FieldId::Id || f == FieldId::Title);
    }
}

#[test]
fn every_field_is_stored() {
    for f in all_fields() {
        assert!(field_policy(f).stored);
    }
}

#[test]
fn policies_follow_the_field_table() {
    assert_eq!(field_policy(FieldId::Id).kind, ValueKind::UInt);
    assert_eq!(field_policy(FieldId::Id).mode, IndexMode::StoredOnly);
    for f in [FieldId::Title, FieldId::Author, FieldId::Publisher] {
        assert_eq!(field_policy(f).kind, ValueKind::Text);
        assert_eq!(field_policy(f).mode, IndexMode::FullTextTokenized);
    }
    for f in [FieldId::Extension, FieldId::Isbn] {
        assert_eq!(field_policy(f).mode, IndexMode::ExactKeyword);
    }
    assert_eq!(field_policy(FieldId::Language).mode, IndexMode::SimpleTokenized);
    for f in [FieldId::Filesize, FieldId::Year, FieldId::Pages] {
        assert_eq!(field_policy(f).kind, ValueKind::UInt);
        assert_eq!(field_policy(f).mode, IndexMode::StoredOnly);
    }
    assert_eq!(field_policy(FieldId::IpfsCid).mode, IndexMode::StoredOnly);
}

#[test]
fn queries_target_title_author_publisher_isbn() {
    assert_eq!(
        query_fields(),
        vec![FieldId::Title, FieldId::Author, FieldId::Publisher, FieldId::Isbn]
    );
}

#[test]
fn no_query_field_is_stored_only() {
    for f in query_fields() {
        let policy = field_policy(f);
        assert_eq!(policy.kind, ValueKind::Text);
        assert_ne!(policy.mode, IndexMode::StoredOnly);
    }
}

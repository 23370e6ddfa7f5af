//! The field registry: the fixed set of record fields with their storage and
//! indexing policy. The same table drives index build, query parsing and the
//! record codec, so the three can never disagree about a field.

use vstd::prelude::*;

verus! {

/// One record field of the catalog schema.
#[derive(Clone, Copy, Debug, PartialEq, Eq, Structural, Hash)]
pub enum FieldId {
    Id,
    Title,
    Author,
    Publisher,
    Extension,
    Filesize,
    Language,
    Year,
    Pages,
    Isbn,
    IpfsCid,
}

/// The type a field's stored value must have.
#[derive(Clone, Copy, Debug, PartialEq, Eq, Structural)]
pub enum ValueKind {
    Text,
    UInt,
}

/// How a field is indexed for search.
#[derive(Clone, Copy, Debug, PartialEq, Eq, Structural)]
pub enum IndexMode {
    /// Tokenized full text with term frequencies and positions.
    FullTextTokenized,
    /// Matched only as one exact keyword.
    ExactKeyword,
    /// Tokenized with the engine's plain default tokenizer.
    SimpleTokenized,
    /// Stored for retrieval, never searchable.
    StoredOnly,
}

/// The complete indexing policy of one field.
#[derive(Clone, Copy, Debug, PartialEq, Eq, Structural)]
pub struct FieldPolicy {
    pub kind: ValueKind,
    pub mode: IndexMode,
    pub stored: bool,
    /// A decoded document must carry a value for this field.
    pub required: bool,
}

/// The fixed policy table of the registry.
pub open spec fn spec_policy(f: FieldId) -> FieldPolicy {
    match f {
        FieldId::Id => FieldPolicy {
            kind: ValueKind::UInt,
            mode: IndexMode::StoredOnly,
            stored: true,
            required: true,
        },
        FieldId::Title => FieldPolicy {
            kind: ValueKind::Text,
            mode: IndexMode::FullTextTokenized,
            stored: true,
            required: true,
        },
        FieldId::Author => FieldPolicy {
            kind: ValueKind::Text,
            mode: IndexMode::FullTextTokenized,
            stored: true,
            required: false,
        },
        FieldId::Publisher => FieldPolicy {
            kind: ValueKind::Text,
            mode: IndexMode::FullTextTokenized,
            stored: true,
            required: false,
        },
        FieldId::Extension => FieldPolicy {
            kind: ValueKind::Text,
            mode: IndexMode::ExactKeyword,
            stored: true,
            required: false,
        },
        FieldId::Filesize => FieldPolicy {
            kind: ValueKind::UInt,
            mode: IndexMode::StoredOnly,
            stored: true,
            required: false,
        },
        FieldId::Language => FieldPolicy {
            kind: ValueKind::Text,
            mode: IndexMode::SimpleTokenized,
            stored: true,
            required: false,
        },
        FieldId::Year => FieldPolicy {
            kind: ValueKind::UInt,
            mode: IndexMode::StoredOnly,
            stored: true,
            required: false,
        },
        FieldId::Pages => FieldPolicy {
            kind: ValueKind::UInt,
            mode: IndexMode::StoredOnly,
            stored: true,
            required: false,
        },
        FieldId::Isbn => FieldPolicy {
            kind: ValueKind::Text,
            mode: IndexMode::ExactKeyword,
            stored: true,
            required: false,
        },
        FieldId::IpfsCid => FieldPolicy {
            kind: ValueKind::Text,
            mode: IndexMode::StoredOnly,
            stored: true,
            required: false,
        },
    }
}

/// The stored name of each field, shared by every process that opens the index.
pub open spec fn spec_field_name(f: FieldId) -> Seq<char> {
    match f {
        FieldId::Id => "id"@,
        FieldId::Title => "title"@,
        FieldId::Author => "author"@,
        FieldId::Publisher => "publisher"@,
        FieldId::Extension => "extension"@,
        FieldId::Filesize => "filesize"@,
        FieldId::Language => "language"@,
        FieldId::Year => "year"@,
        FieldId::Pages => "pages"@,
        FieldId::Isbn => "isbn"@,
        FieldId::IpfsCid => "ipfs_cid"@,
    }
}

/// Every field of the registry, in schema order.
pub open spec fn spec_all_fields() -> Seq<FieldId> {
    seq![
        FieldId::Id,
        FieldId::Title,
        FieldId::Author,
        FieldId::Publisher,
        FieldId::Extension,
        FieldId::Filesize,
        FieldId::Language,
        FieldId::Year,
        FieldId::Pages,
        FieldId::Isbn,
        FieldId::IpfsCid,
    ]
}

/// The fixed subset of fields a free-text query is parsed against.
pub open spec fn spec_query_fields() -> Seq<FieldId> {
    seq![FieldId::Title, FieldId::Author, FieldId::Publisher, FieldId::Isbn]
}

/// Returns the policy of `f`, exactly as the registry table states it.
pub fn field_policy(f: FieldId) -> (r: FieldPolicy)
    ensures
        r == spec_policy(f),
{
    match f {
        FieldId::Id => FieldPolicy {
            kind: ValueKind::UInt,
            mode: IndexMode::StoredOnly,
            stored: true,
            required: true,
        },
        FieldId::Title => FieldPolicy {
            kind: ValueKind::Text,
            mode: IndexMode::FullTextTokenized,
            stored: true,
            required: true,
        },
        FieldId::Author => FieldPolicy {
            kind: ValueKind::Text,
            mode: IndexMode::FullTextTokenized,
            stored: true,
            required: false,
        },
        FieldId::Publisher => FieldPolicy {
            kind: ValueKind::Text,
            mode: IndexMode::FullTextTokenized,
            stored: true,
            required: false,
        },
        FieldId::Extension => FieldPolicy {
            kind: ValueKind::Text,
            mode: IndexMode::ExactKeyword,
            stored: true,
            required: false,
        },
        FieldId::Filesize => FieldPolicy {
            kind: ValueKind::UInt,
            mode: IndexMode::StoredOnly,
            stored: true,
            required: false,
        },
        FieldId::Language => FieldPolicy {
            kind: ValueKind::Text,
            mode: IndexMode::SimpleTokenized,
            stored: true,
            required: false,
        },
        FieldId::Year => FieldPolicy {
            kind: ValueKind::UInt,
            mode: IndexMode::StoredOnly,
            stored: true,
            required: false,
        },
        FieldId::Pages => FieldPolicy {
            kind: ValueKind::UInt,
            mode: IndexMode::StoredOnly,
            stored: true,
            required: false,
        },
        FieldId::Isbn => FieldPolicy {
            kind: ValueKind::Text,
            mode: IndexMode::ExactKeyword,
            stored: true,
            required: false,
        },
        FieldId::IpfsCid => FieldPolicy {
            kind: ValueKind::Text,
            mode: IndexMode::StoredOnly,
            stored: true,
            required: false,
        },
    }
}

/// Returns the stored name of `f`.
pub fn field_name(f: FieldId) -> (r: &'static str)
    ensures
        r@ == spec_field_name(f),
{
    match f {
        FieldId::Id => "id",
        FieldId::Title => "title",
        FieldId::Author => "author",
        FieldId::Publisher => "publisher",
        FieldId::Extension => "extension",
        FieldId::Filesize => "filesize",
        FieldId::Language => "language",
        FieldId::Year => "year",
        FieldId::Pages => "pages",
        FieldId::Isbn => "isbn",
        FieldId::IpfsCid => "ipfs_cid",
    }
}

/// Returns every field of the registry, in schema order.
pub fn all_fields() -> (r: Vec<FieldId>)
    ensures
        r@ == spec_all_fields(),
{
    let mut r: Vec<FieldId> = Vec::new();
    r.push(FieldId::Id);
    r.push(FieldId::Title);
    r.push(FieldId::Author);
    r.push(FieldId::Publisher);
    r.push(FieldId::Extension);
    r.push(FieldId::Filesize);
    r.push(FieldId::Language);
    r.push(FieldId::Year);
    r.push(FieldId::Pages);
    r.push(FieldId::Isbn);
    r.push(FieldId::IpfsCid);
    proof {
        assert(r@ =~= spec_all_fields());
    }
    r
}

/// Returns the fixed searchable subset queries are parsed against.
pub fn query_fields() -> (r: Vec<FieldId>)
    ensures
        r@ == spec_query_fields(),
{
    let mut r: Vec<FieldId> = Vec::new();
    r.push(FieldId::Title);
    r.push(FieldId::Author);
    r.push(FieldId::Publisher);
    r.push(FieldId::Isbn);
    proof {
        assert(r@ =~= spec_query_fields());
    }
    r
}

/// Registry-wide policy: every field is stored; exactly `id` and `title` are
/// required; every query-target field is text and actually searchable.
pub proof fn lemma_registry_policy()
    ensures
        forall|f: FieldId| (#[trigger] spec_policy(f)).stored,
        forall|f: FieldId|
            (#[trigger] spec_policy(f)).required <==> (f == FieldId::Id || f == FieldId::Title),
        forall|i: int|
            0 <= i < spec_query_fields().len() ==> {
                let p = spec_policy(#[trigger] spec_query_fields()[i]);
                p.kind == ValueKind::Text && p.mode != IndexMode::StoredOnly
            },
{
}

} // verus!

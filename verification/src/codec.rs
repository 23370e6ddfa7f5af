//! The record codec: the bidirectional mapping between a typed `Book` record
//! and the engine's stored-document representation, with asymmetric decode
//! rules. Optional fields decode tolerantly to a default; a document that
//! lacks `id` or `title` is corrupt and fails with a schema-integrity error.

use vstd::prelude::*;
use crate::errors::SearchError;
use crate::registry::FieldId;

verus! {

/// One value as the engine stores it: a catalog of noisy third-party data
/// may hold a number, a text, or an explicit null in any field.
#[derive(Debug, Clone, PartialEq, Eq)]
pub enum StoredValue {
    UInt(u64),
    Text(String),
    Null,
}

/// The mathematical shape of one stored value.
pub enum ValModel {
    UInt(u64),
    Text(Seq<char>),
    Null,
}

impl View for StoredValue {
    type V = ValModel;

    open spec fn view(&self) -> ValModel {
        match self {
            StoredValue::UInt(n) => ValModel::UInt(*n),
            StoredValue::Text(s) => ValModel::Text(s@),
            StoredValue::Null => ValModel::Null,
        }
    }
}

/// A retrieved stored document: the field values the engine kept for one
/// record, in storage order. A field may occur any number of times; only
/// the first occurrence is read, as the engine's accessor does.
#[derive(Debug, PartialEq, Eq)]
pub struct StoredDoc {
    pub entries: Vec<(FieldId, StoredValue)>,
}

/// The mathematical shape of a stored document.
pub type DocModel = Seq<(FieldId, ValModel)>;

impl View for StoredDoc {
    type V = DocModel;

    open spec fn view(&self) -> DocModel {
        self.entries@.map_values(|p: (FieldId, StoredValue)| (p.0, p.1@))
    }
}

/// One bibliographic record, the unit of a search result.
#[derive(Debug, Clone, PartialEq, Eq)]
pub struct Book {
    pub id: u64,
    pub title: String,
    pub author: String,
    pub publisher: String,
    pub extension: String,
    pub filesize: u64,
    pub language: String,
    pub year: u64,
    pub pages: u64,
    pub isbn: String,
    pub ipfs_cid: String,
}

/// The mathematical shape of a record.
pub struct BookModel {
    pub id: u64,
    pub title: Seq<char>,
    pub author: Seq<char>,
    pub publisher: Seq<char>,
    pub extension: Seq<char>,
    pub filesize: u64,
    pub language: Seq<char>,
    pub year: u64,
    pub pages: u64,
    pub isbn: Seq<char>,
    pub ipfs_cid: Seq<char>,
}

impl View for Book {
    type V = BookModel;

    open spec fn view(&self) -> BookModel {
        BookModel {
            id: self.id,
            title: self.title@,
            author: self.author@,
            publisher: self.publisher@,
            extension: self.extension@,
            filesize: self.filesize,
            language: self.language@,
            year: self.year,
            pages: self.pages,
            isbn: self.isbn@,
            ipfs_cid: self.ipfs_cid@,
        }
    }
}

impl Default for Book {
    /// The all-default record: zero in every numeric field, the empty
    /// string in every text field.
    fn default() -> (r: Book)
        ensures
            r.id == 0,
            r.title@ == Seq::<char>::empty(),
            r.author@ == Seq::<char>::empty(),
            r.publisher@ == Seq::<char>::empty(),
            r.extension@ == Seq::<char>::empty(),
            r.filesize == 0,
            r.language@ == Seq::<char>::empty(),
            r.year == 0,
            r.pages == 0,
            r.isbn@ == Seq::<char>::empty(),
            r.ipfs_cid@ == Seq::<char>::empty(),
    {
        Book {
            id: 0,
            title: String::new(),
            author: String::new(),
            publisher: String::new(),
            extension: String::new(),
            filesize: 0,
            language: String::new(),
            year: 0,
            pages: 0,
            isbn: String::new(),
            ipfs_cid: String::new(),
        }
    }
}

/// The first value a document holds for field `f`, if any.
pub open spec fn first_val(d: DocModel, f: FieldId) -> Option<ValModel>
    decreases d.len(),
{
    if d.len() == 0 {
        None
    } else if d[0].0 == f {
        Some(d[0].1)
    } else {
        first_val(d.drop_first(), f)
    }
}

/// Tolerant text read: anything but a stored text decodes to the empty string.
pub open spec fn text_or_empty(v: Option<ValModel>) -> Seq<char> {
    match v {
        Some(ValModel::Text(s)) => s,
        _ => Seq::<char>::empty(),
    }
}

/// Tolerant numeric read: anything but a stored number decodes to zero.
pub open spec fn uint_or_zero(v: Option<ValModel>) -> u64 {
    match v {
        Some(ValModel::UInt(n)) => n,
        _ => 0,
    }
}

/// What decoding a stored document yields: the reconstructed record, or the
/// first required field the document lacks.
pub open spec fn decode_model(d: DocModel) -> Result<BookModel, FieldId> {
    if first_val(d, FieldId::Id) is None {
        Err(FieldId::Id)
    } else if first_val(d, FieldId::Title) is None {
        Err(FieldId::Title)
    } else {
        Ok(
            BookModel {
                id: uint_or_zero(first_val(d, FieldId::Id)),
                title: text_or_empty(first_val(d, FieldId::Title)),
                author: text_or_empty(first_val(d, FieldId::Author)),
                publisher: text_or_empty(first_val(d, FieldId::Publisher)),
                extension: text_or_empty(first_val(d, FieldId::Extension)),
                filesize: uint_or_zero(first_val(d, FieldId::Filesize)),
                language: text_or_empty(first_val(d, FieldId::Language)),
                year: uint_or_zero(first_val(d, FieldId::Year)),
                pages: uint_or_zero(first_val(d, FieldId::Pages)),
                isbn: text_or_empty(first_val(d, FieldId::Isbn)),
                ipfs_cid: text_or_empty(first_val(d, FieldId::IpfsCid)),
            },
        )
    }
}

/// What encoding a record stores: one value per registry field, in schema
/// order, with no tolerance applied.
pub open spec fn encode_model(b: BookModel) -> DocModel {
    seq![
        (FieldId::Id, ValModel::UInt(b.id)),
        (FieldId::Title, ValModel::Text(b.title)),
        (FieldId::Author, ValModel::Text(b.author)),
        (FieldId::Publisher, ValModel::Text(b.publisher)),
        (FieldId::Extension, ValModel::Text(b.extension)),
        (FieldId::Filesize, ValModel::UInt(b.filesize)),
        (FieldId::Language, ValModel::Text(b.language)),
        (FieldId::Year, ValModel::UInt(b.year)),
        (FieldId::Pages, ValModel::UInt(b.pages)),
        (FieldId::Isbn, ValModel::Text(b.isbn)),
        (FieldId::IpfsCid, ValModel::Text(b.ipfs_cid)),
    ]
}

proof fn lemma_first_val_skip(d: DocModel, f: FieldId, i: int)
    requires
        0 <= i <= d.len(),
        forall|j: int| 0 <= j < i ==> (#[trigger] d[j]).0 != f,
    ensures
        first_val(d, f) == first_val(d.skip(i), f),
    decreases i,
{
    if i > 0 {
        lemma_first_val_skip(d.drop_first(), f, i - 1);
        assert(d.drop_first().skip(i - 1) =~= d.skip(i));
    } else {
        assert(d.skip(0) =~= d);
    }
}

/// If `f` first occurs at position `k`, the first value read for `f` is the
/// value stored there.
pub proof fn lemma_first_val_at(d: DocModel, f: FieldId, k: int)
    requires
        0 <= k < d.len(),
        d[k].0 == f,
        forall|j: int| 0 <= j < k ==> (#[trigger] d[j]).0 != f,
    ensures
        first_val(d, f) == Some(d[k].1),
{
    lemma_first_val_skip(d, f, k);
    assert(d.skip(k)[0] == d[k]);
}

/// A document that holds no entry for `f` reads `None` for it.
pub proof fn lemma_first_val_absent(d: DocModel, f: FieldId)
    requires
        forall|j: int| 0 <= j < d.len() ==> (#[trigger] d[j]).0 != f,
    ensures
        first_val(d, f) is None,
{
    lemma_first_val_skip(d, f, d.len() as int);
    assert(d.skip(d.len() as int) =~= Seq::<(FieldId, ValModel)>::empty());
}

/// The optional string fields: tolerant decode substitutes the empty string
/// for them instead of failing.
pub open spec fn is_optional_text_field(f: FieldId) -> bool {
    ||| f == FieldId::Author
    ||| f == FieldId::Publisher
    ||| f == FieldId::Extension
    ||| f == FieldId::Language
    ||| f == FieldId::Isbn
    ||| f == FieldId::IpfsCid
}

/// The numeric metadata fields: tolerant decode substitutes zero for them
/// instead of failing.
pub open spec fn is_numeric_field(f: FieldId) -> bool {
    ||| f == FieldId::Filesize
    ||| f == FieldId::Year
    ||| f == FieldId::Pages
}

/// The text carried by one string field of a decoded record.
pub open spec fn book_text_field(b: BookModel, f: FieldId) -> Seq<char> {
    match f {
        FieldId::Title => b.title,
        FieldId::Author => b.author,
        FieldId::Publisher => b.publisher,
        FieldId::Extension => b.extension,
        FieldId::Language => b.language,
        FieldId::Isbn => b.isbn,
        FieldId::IpfsCid => b.ipfs_cid,
        _ => Seq::<char>::empty(),
    }
}

/// The number carried by one numeric field of a decoded record.
pub open spec fn book_uint_field(b: BookModel, f: FieldId) -> u64 {
    match f {
        FieldId::Id => b.id,
        FieldId::Filesize => b.filesize,
        FieldId::Year => b.year,
        FieldId::Pages => b.pages,
        _ => 0,
    }
}

/// Encode-then-decode restores every record exactly; in particular `id` and
/// `title` survive the round trip unchanged.
pub proof fn lemma_encode_decode(b: BookModel)
    ensures
        decode_model(encode_model(b)) == Ok::<BookModel, FieldId>(b),
{
    let d = encode_model(b);
    lemma_first_val_at(d, FieldId::Id, 0);
    lemma_first_val_at(d, FieldId::Title, 1);
    lemma_first_val_at(d, FieldId::Author, 2);
    lemma_first_val_at(d, FieldId::Publisher, 3);
    lemma_first_val_at(d, FieldId::Extension, 4);
    lemma_first_val_at(d, FieldId::Filesize, 5);
    lemma_first_val_at(d, FieldId::Language, 6);
    lemma_first_val_at(d, FieldId::Year, 7);
    lemma_first_val_at(d, FieldId::Pages, 8);
    lemma_first_val_at(d, FieldId::Isbn, 9);
    lemma_first_val_at(d, FieldId::IpfsCid, 10);
}

/// Decode fails exactly when the document lacks a value for `id` or `title`,
/// and then names the first missing one; no other field can make it fail.
pub proof fn lemma_decode_err_iff(d: DocModel)
    ensures
        decode_model(d) is Err <==> (first_val(d, FieldId::Id) is None || first_val(
            d,
            FieldId::Title,
        ) is None),
        decode_model(d) is Err ==> decode_model(d) == Err::<BookModel, FieldId>(
            if first_val(d, FieldId::Id) is None {
                FieldId::Id
            } else {
                FieldId::Title
            },
        ),
{
}

/// A document that misses or nulls an optional string field still decodes
/// without error, and that field of the record is the empty string.
pub proof fn lemma_optional_text_defaults(d: DocModel, f: FieldId)
    requires
        is_optional_text_field(f),
        first_val(d, f) is None || first_val(d, f) == Some(ValModel::Null),
    ensures
        decode_model(d) is Err <==> (first_val(d, FieldId::Id) is None || first_val(
            d,
            FieldId::Title,
        ) is None),
        decode_model(d) matches Ok(b) ==> book_text_field(b, f) == Seq::<char>::empty(),
{
}

/// A document whose numeric metadata field is absent or non-numeric still
/// decodes without error, and that field of the record is zero.
pub proof fn lemma_numeric_defaults(d: DocModel, f: FieldId)
    requires
        is_numeric_field(f),
        !(first_val(d, f) matches Some(ValModel::UInt(_))),
    ensures
        decode_model(d) is Err <==> (first_val(d, FieldId::Id) is None || first_val(
            d,
            FieldId::Title,
        ) is None),
        decode_model(d) matches Ok(b) ==> book_uint_field(b, f) == 0,
{
}

/// A document that lacks `id` or `title` never decodes: it is rejected with
/// a schema-integrity failure.
pub proof fn lemma_missing_required_fails(d: DocModel)
    requires
        first_val(d, FieldId::Id) is None || first_val(d, FieldId::Title) is None,
    ensures
        decode_model(d) is Err,
{
}

/// Returns the first value the document holds for `f`, as the decode rules
/// read it.
pub fn get_first(d: &StoredDoc, f: FieldId) -> (r: Option<&StoredValue>)
    ensures
        match r {
            Some(v) => first_val(d@, f) == Some(v@),
            None => first_val(d@, f) is None,
        },
{
    let n = d.entries.len();
    let mut i: usize = 0;
    while i < n
        invariant
            n == d.entries.len(),
            0 <= i <= n,
            forall|j: int| 0 <= j < i ==> (#[trigger] d@[j]).0 != f,
        decreases n - i,
    {
        assert(d@[i as int] == (d.entries@[i as int].0, d.entries@[i as int].1@));
        if d.entries[i].0 == f {
            proof {
                lemma_first_val_at(d@, f, i as int);
            }
            return Some(&d.entries[i].1);
        }
        i += 1;
    }
    proof {
        lemma_first_val_absent(d@, f);
    }
    None
}

/// Tolerant read of a text field.
fn read_text(d: &StoredDoc, f: FieldId) -> (r: String)
    ensures
        r@ == text_or_empty(first_val(d@, f)),
{
    match get_first(d, f) {
        Some(v) => match v {
            StoredValue::Text(s) => s.clone(),
            _ => String::new(),
        },
        None => String::new(),
    }
}

/// Tolerant read of a numeric field.
fn read_uint(d: &StoredDoc, f: FieldId) -> (r: u64)
    ensures
        r == uint_or_zero(first_val(d@, f)),
{
    match get_first(d, f) {
        Some(v) => match v {
            StoredValue::UInt(n) => *n,
            _ => 0,
        },
        None => 0,
    }
}

/// Decodes a retrieved stored document into a record.
///
/// Optional fields never fail: a missing, null or mistyped value becomes the
/// empty string or zero. A document that lacks `id` or `title` outright is
/// corrupt and yields a schema-integrity error naming the missing field.
pub fn decode(d: &StoredDoc) -> (r: Result<Book, SearchError>)
    ensures
        match decode_model(d@) {
            Ok(bm) => r matches Ok(b) && b@ == bm,
            Err(f) => r == Err::<Book, SearchError>(SearchError::SchemaIntegrity(f)),
        },
{
    if get_first(d, FieldId::Id).is_none() {
        return Err(SearchError::SchemaIntegrity(FieldId::Id));
    }
    if get_first(d, FieldId::Title).is_none() {
        return Err(SearchError::SchemaIntegrity(FieldId::Title));
    }
    Ok(
        Book {
            id: read_uint(d, FieldId::Id),
            title: read_text(d, FieldId::Title),
            author: read_text(d, FieldId::Author),
            publisher: read_text(d, FieldId::Publisher),
            extension: read_text(d, FieldId::Extension),
            filesize: read_uint(d, FieldId::Filesize),
            language: read_text(d, FieldId::Language),
            year: read_uint(d, FieldId::Year),
            pages: read_uint(d, FieldId::Pages),
            isbn: read_text(d, FieldId::Isbn),
            ipfs_cid: read_text(d, FieldId::IpfsCid),
        },
    )
}

/// Encodes a record into its stored-document representation, one value per
/// registry field in schema order.
pub fn encode(b: &Book) -> (d: StoredDoc)
    ensures
        d@ == encode_model(b@),
{
    let mut entries: Vec<(FieldId, StoredValue)> = Vec::new();
    entries.push((FieldId::Id, StoredValue::UInt(b.id)));
    entries.push((FieldId::Title, StoredValue::Text(b.title.clone())));
    entries.push((FieldId::Author, StoredValue::Text(b.author.clone())));
    entries.push((FieldId::Publisher, StoredValue::Text(b.publisher.clone())));
    entries.push((FieldId::Extension, StoredValue::Text(b.extension.clone())));
    entries.push((FieldId::Filesize, StoredValue::UInt(b.filesize)));
    entries.push((FieldId::Language, StoredValue::Text(b.language.clone())));
    entries.push((FieldId::Year, StoredValue::UInt(b.year)));
    entries.push((FieldId::Pages, StoredValue::UInt(b.pages)));
    entries.push((FieldId::Isbn, StoredValue::Text(b.isbn.clone())));
    entries.push((FieldId::IpfsCid, StoredValue::Text(b.ipfs_cid.clone())));
    let d = StoredDoc { entries };
    proof {
        assert(d@ =~= encode_model(b@));
    }
    d
}

} // verus!


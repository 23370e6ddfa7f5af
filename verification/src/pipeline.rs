//! The result pipeline of the query engine: the decisions around one ranked
//! retrieval. The engine hands back hits in rank order; this module caps them
//! at the caller's limit, decodes each stored document in order, and stops on
//! the first integrity failure. A limit of zero is answered here, before the
//! engine runs, because the engine's collector refuses an empty budget.

use vstd::prelude::*;
use crate::codec::{decode, decode_model, Book, BookModel, DocModel, StoredDoc};
use crate::errors::SearchError;

verus! {

/// How many hits the engine's collector should be asked for: `None` says not
/// to run the engine at all. The collector panics on a zero budget, so a
/// zero limit never reaches it and instead yields the empty result.
pub fn engine_fetch_limit(limit: usize) -> (r: Option<usize>)
    ensures
        r is None <==> limit == 0,
        r matches Some(l) ==> l == limit,
{
    if limit == 0 {
        None
    } else {
        Some(limit)
    }
}

/// The ranked prefix of the hits that the caller's limit admits.
pub open spec fn admitted(docs: Seq<DocModel>, limit: int) -> Seq<DocModel> {
    docs.take(if limit < docs.len() {
        limit
    } else {
        docs.len() as int
    })
}

/// Whether every admitted document decodes.
pub open spec fn all_decodable(ds: Seq<DocModel>) -> bool {
    forall|i: int| 0 <= i < ds.len() ==> (#[trigger] decode_model(ds[i])) is Ok
}

/// The records the admitted documents decode to, in rank order.
pub open spec fn decoded_books(ds: Seq<DocModel>) -> Seq<BookModel> {
    Seq::new(ds.len(), |i: int| decode_model(ds[i])->Ok_0)
}

/// Decodes the ranked hits of one retrieval, keeping rank order and at most
/// `limit` of them.
///
/// Returns the decoded records exactly when every admitted document decodes;
/// a limit of zero therefore always succeeds with the empty sequence. The
/// first admitted document that lacks a required field aborts the whole
/// retrieval with its schema-integrity error.
pub fn top_k_decode(docs: &Vec<StoredDoc>, limit: usize) -> (r: Result<Vec<Book>, SearchError>)
    ensures
        r is Ok <==> all_decodable(admitted(docs@.map_values(|d: StoredDoc| d@), limit as int)),
        r matches Ok(bs) ==> bs@.map_values(|b: Book| b@) == decoded_books(
            admitted(docs@.map_values(|d: StoredDoc| d@), limit as int),
        ),
        r matches Ok(bs) ==> bs@.len() == if limit < docs@.len() {
            limit as int
        } else {
            docs@.len() as int
        },
        limit == 0 ==> (r matches Ok(bs) && bs@.len() == 0),
        r matches Err(e) ==> {
            let ds = admitted(docs@.map_values(|d: StoredDoc| d@), limit as int);
            exists|i: int|
                0 <= i < ds.len() && ((#[trigger] decode_model(ds[i])) matches Err(f) && e
                    == SearchError::SchemaIntegrity(f))
        },
{
    let ghost ds = admitted(docs@.map_values(|d: StoredDoc| d@), limit as int);
    let n: usize = if limit < docs.len() {
        limit
    } else {
        docs.len()
    };
    proof {
        assert(ds =~= docs@.map_values(|d: StoredDoc| d@).take(n as int));
    }
    let mut out: Vec<Book> = Vec::new();
    let mut i: usize = 0;
    while i < n
        invariant
            0 <= i <= n,
            n <= docs@.len(),
            ds == admitted(docs@.map_values(|d: StoredDoc| d@), limit as int),
            ds.len() == n as int,
            forall|j: int| 0 <= j < n ==> ds[j] == docs@[j]@,
            out@.len() == i,
            forall|j: int| 0 <= j < i ==> (#[trigger] decode_model(ds[j])) is Ok,
            forall|j: int| 0 <= j < i ==> (#[trigger] out@[j])@ == decode_model(ds[j])->Ok_0,
        decreases n - i,
    {
        match decode(&docs[i]) {
            Ok(b) => {
                out.push(b);
            },
            Err(e) => {
                proof {
                    assert(decode_model(ds[i as int]) is Err);
                }
                return Err(e);
            },
        }
        i += 1;
    }
    proof {
        assert(out@.map_values(|b: Book| b@) =~= decoded_books(ds));
    }
    Ok(out)
}

/// The limit always caps the result: a successful retrieval returns at most
/// `limit` records, and with a zero limit it returns none.
pub proof fn lemma_limit_caps_results(docs: Seq<DocModel>, limit: int)
    requires
        0 <= limit,
    ensures
        decoded_books(admitted(docs, limit)).len() <= limit,
        limit == 0 ==> decoded_books(admitted(docs, limit)).len() == 0,
{
}

} // verus!

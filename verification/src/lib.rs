//! Search core for a catalog of bibliographic records.
//!
//! The library declares the fixed field registry shared by index build and
//! query time, a per-character Unicode tokenizer model, the tolerant codec
//! between stored documents and typed `Book` records, and the ranked-result
//! decode pipeline. The inverted-index engine itself is an external
//! collaborator: the thin shell that opens the index and executes queries
//! lives outside the verified library.

pub mod codec;
pub mod errors;
pub mod pipeline;
pub mod registry;
pub mod tokenizer;

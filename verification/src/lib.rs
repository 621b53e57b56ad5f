//! A file-backed persistent value container.
//!
//! A [`Block`](block::Block) is a typed slot that is filled from previously
//! persisted bytes on construction, read and written in memory during its
//! lifetime, and whose current value can be turned back into bytes for
//! persistence.  The crate owns the whole lifecycle policy — path derivation
//! from a key and the running program's name, load-or-default on
//! construction, and the skip-if-default store policy — while the embedding
//! program performs the actual filesystem reads and writes.

pub mod block;
pub mod codec;
pub mod error;
pub mod numeral;
pub mod path;
pub mod storage;

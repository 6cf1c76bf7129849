//! A JSON front for a byte-oriented key-value store.
//!
//! Keys and values are JSON documents. On the way to the store each is written
//! out as compact JSON text; what a lookup brings back is parsed into a
//! document again. The store is anything that offers the three byte operations
//! of [`BinaryStore`]; the adapter keeps no state of its own and adds no
//! buffering, so every call of [`Interface`] is one call of the store.
//!
//! The text is written and parsed by `rustc_serialize`. [`codec`] holds the two
//! calls into it and says what is taken on trust about them; [`limits`] says
//! which texts are handed to its parser at all. [`store`] is the store as the
//! adapter sees it, with the record of calls that the contracts speak of, and
//! [`memory`] a store to try things on. [`interface`] says which call of the
//! store each operation makes and what it returns for the store's answer, and
//! [`laws`] what follows when the store keeps what it is given.

pub mod codec;
pub mod error;
pub mod interface;
pub mod laws;
pub mod limits;
pub mod memory;
pub mod options;
pub mod store;

pub use codec::{decode, encode};
pub use error::{Error, StoreError};
pub use interface::Interface;
pub use memory::MemoryStore;
pub use options::{ReadOptions, WriteOptions};
pub use store::BinaryStore;

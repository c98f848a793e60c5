//! Core logic of the Autotext snippet manager: where its files live, how
//! snippets are encrypted, which SQL each operation runs, and how query
//! results are reduced to the values the interface shows.

pub mod cipher;
pub mod codec;
pub mod crypto;
pub mod paths;
pub mod queries;
pub mod records;
pub mod text;

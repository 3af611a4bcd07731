//! Batch scraper core for marketplace "Authorization Details" pages.
//!
//! The library holds everything that can be stated and proved: reading
//! labeled field values out of paragraph texts, assembling the fixed
//! seven-column output rows, and the sequential run that emits exactly one
//! row per input identifier, in input order. Browser automation and file
//! handling live outside the library and exchange plain values with it.

pub mod input;
pub mod record;
pub mod rows;
pub mod runner;
pub mod text;

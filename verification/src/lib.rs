//! Backend logic of an editor for branching game dialogs: the stored tables,
//! the mapping between rows and domain objects, lazy creation of variants and
//! the emitters for the generated script and the per-variant text files.
//!
//! The library holds the content in a [`dialog::store::Store`] and never
//! touches a database or a file: what an operation computed for the outside
//! world, a row or the bytes of a file, is in its result or in the store.

pub mod dialog;

//! Dialogs, their steps and variants, and the speakers that say them.
//!
//! * [`types`]: the entities, their rows and their projections for the user
//!   interface, each with its view.
//! * [`codec`]: list-valued fields as the text of one column.
//! * [`store`]: the tables and their key constraints.
//! * [`source`]: rows that are created without an authoring action.
//! * [`commands`]: the requests of the user interface.
//! * [`script`]: the generated script of a dialog.
//! * [`export`]: the text file of a saved variant.
//! * [`laws`]: what holds of the operations taken together.
//! * [`text`], [`error`]: building blocks of texts, and failures.

pub mod codec;
pub mod commands;
pub mod error;
pub mod export;
pub mod laws;
pub mod script;
pub mod source;
pub mod store;
pub mod text;
pub mod types;

//! State and rules of a small key/value editor: a loading sequencer, an
//! in-memory string store with a confirmed delete, a list of document
//! titles and an append-only message log.

pub mod decimal;
pub mod editor;
pub mod laws;
pub mod loading;
pub mod messages;
pub mod store;

pub use editor::{EditorModel, State};
pub use loading::{LoadStep, Loader, LOAD_MS};
pub use store::Store;

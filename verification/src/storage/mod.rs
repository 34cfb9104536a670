//! Virtual file tree of the server: path normalisation and validation, and
//! the decisions behind listing, retrieving, storing and deleting files.
pub mod filesystem;
pub mod operations;
pub mod results;
pub mod validation;

pub use operations::{delete_file, list_directory, prepare_file_retrieval, prepare_file_storage};
pub use results::{DeleteResult, ListResult, RetrieveResult, StoreResult};

//! Result types of storage operations.
use vstd::prelude::*;

verus! {

/// Result of a directory listing.
#[derive(Debug, Clone)]
pub struct ListResult {
    pub entries: Vec<String>,
    pub path: String,
}

/// Result of preparing a file retrieval.
#[derive(Debug, Clone)]
pub struct RetrieveResult {
    pub file_path: String,
    pub virtual_path: String,
}

/// Result of preparing a file upload.
#[derive(Debug, Clone)]
pub struct StoreResult {
    pub file_path: String,
    pub virtual_path: String,
    pub temp_path: String,
}

/// Result of a file deletion.
#[derive(Debug, Clone)]
pub struct DeleteResult {
    pub file_path: String,
    pub virtual_path: String,
}

} // verus!

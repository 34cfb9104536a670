//! Directory navigation: changing and reporting the working directory.
pub mod operations;
pub mod results;

pub use operations::change_directory;
pub use results::{CwdResult, PwdResult};

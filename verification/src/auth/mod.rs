//! Authentication: the credential store and the validation of user names
//! and passwords.
pub mod credentials;
pub mod results;
pub mod validator;

pub use results::{PasswordValidationResult, UserValidationResult};
pub use validator::{validate_password, validate_user};

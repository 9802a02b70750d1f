pub mod encryption;
pub mod errors;
pub mod file_management;
pub mod identity;

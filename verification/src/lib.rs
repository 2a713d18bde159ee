//! Support layer for web-service backends: a shared error taxonomy, the
//! decisions of generic document access, and validated file ingestion.

pub mod err;
pub mod file;
pub mod jwt;
pub mod model;
pub mod stamp;
pub mod text;

pub use err::Error;
pub use jwt::Token;
pub use model::Model;
pub use stamp::Timestamp;

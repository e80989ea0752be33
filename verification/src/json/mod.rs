//! The wire-facing data model: a plain JSON value type and the records the
//! gateway engine keeps while a connection runs.

pub mod guild;
pub mod id;
pub mod user;
pub mod value;

pub use guild::Guild;
pub use id::Id;
pub use user::User;
pub use user::UserId;
pub use value::JsonValue;

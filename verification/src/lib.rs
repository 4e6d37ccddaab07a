//! A URL shortener's request logic: input validation, slug generation, and the
//! decisions each operation takes between the commands it sends to a key/value
//! store. The store itself is reached by the caller; this crate only decides.

pub mod count;
pub mod input;
pub mod laws;
pub mod routes;
pub mod slug;
pub mod store;

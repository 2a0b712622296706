//! OAuth credentials of the servers that a session talks to.

pub mod error;
pub mod fallback_file;
pub mod keys;
pub mod persistor;
pub mod refresh_laws;
pub mod store;
pub mod store_laws;
pub mod store_step_laws;
pub mod token_laws;
pub mod tokens;
pub mod transaction_laws;

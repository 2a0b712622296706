//! The rules of a coding agent's sessions: the items that turns are made of and the events that
//! report them, the OAuth credentials of its tool servers and how they are kept and refreshed, and
//! how a connection to a tool server is made and recovered.

pub mod clock;
pub mod duplicate;
pub mod duration;
pub mod ids;
pub mod initialize;
pub mod initialize_laws;
pub mod items;
pub mod json;
pub mod managed_defaults;
pub mod models;
pub mod oauth;
pub mod paths;
pub mod protocol;
pub mod retry;
pub mod retry_laws;
pub mod text;
pub mod transport;
pub mod user_input;
pub mod xml;

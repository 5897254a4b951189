//! What the desktop app keeps in its database, short of the database itself:
//! the chat message listing and the runtime configuration's rows.
pub mod chat_repo;
pub mod runtime_config;

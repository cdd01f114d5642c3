//! A small users service: routing, record mapping, JSON framing and SQL
//! statement building for a single `users` table, with the decisions that turn
//! database outcomes into HTTP responses. The I/O itself (the HTTP server and
//! the database connection) lives outside this library.
pub mod handlers;
pub mod json;
pub mod laws;
pub mod router;
pub mod store;
pub mod user;

//! A small HTTP front end for a table of users: request routing, the five
//! create/read/update/delete operations and their responses.

pub mod decimal;
pub mod handler;
pub mod json;
pub mod laws;
pub mod request;
pub mod response;
pub mod store;
pub mod text;
pub mod todolist;
pub mod user;

//! Request handling logic of a small actix-web study service: response texts,
//! error mapping, request guards, payload limits and input validation.
pub mod custom_error;
pub mod custom_guard;
pub mod database;
pub mod enumerate;
pub mod middleware;
pub mod reply;
pub mod text;
pub mod regex_constants;
pub mod student;
pub mod route_set;
pub mod laws;

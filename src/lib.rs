//! Persistence and identity layer of a personal finance ledger: the domain
//! records and their validation, the mapping between records and their stored
//! form, the schema migration plan, password credentials, and an in-memory
//! repository whose behaviour is stated exactly.

pub mod error;
pub mod text;
pub mod date;
pub mod models;
pub mod mapper;
pub mod credentials;
pub mod memory;
pub mod laws;
pub mod schema;
pub mod query;
pub mod repository;
pub mod screens;
pub mod create_user;
pub mod login;
pub mod dashboard;
pub mod app_state;
pub mod layout;

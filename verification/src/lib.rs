//! Authentication and authorization core for a task-management backend.
//!
//! The crate centers on four pieces: a password verifier built on salted
//! bcrypt hashing, a token service that issues and checks signed time-bounded
//! identity tokens, an authentication gate that turns a bearer credential
//! into request claims, and an authorization gate that enforces a required
//! role (with an administrative override) before a handler may run.
//! Supporting modules hold the data model and the pagination arithmetic used
//! by the task listing endpoints.

pub mod auth_service;
pub mod decimal;
pub mod errors;
pub mod jwt;
pub mod middleware;
pub mod password;
pub mod settings;
pub mod task;
pub mod task_submission;
pub mod user;

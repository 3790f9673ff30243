//! A blog backend's core: a credential store, a session store, posts with
//! paginated feeds, and the request-level operations built on them.
//!
//! Every store keeps its records in memory, with the key and ownership rules
//! of the relational schema stated as invariants.
pub mod error;
pub mod model;
pub mod platform;
pub mod user_repository;
pub mod session_repository;
pub mod pagination;
pub mod post_repository;
pub mod user_service;
pub mod post_service;
pub mod auth;
pub mod controller;
pub mod laws;

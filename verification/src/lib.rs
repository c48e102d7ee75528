//! Verified core of a flashcard and quiz service: answer validation,
//! quiz grading, sharing, access decisions, record updates and query
//! planning. Database, network and token I/O live outside this crate.

pub mod enums;
pub mod validator;
pub mod outside;
pub mod db;
pub mod models;
pub mod grading;
pub mod sharing;
pub mod helpers;
pub mod updates;
pub mod access;
pub mod quiz_questions;
pub mod testing;
pub mod text;
pub mod queries;
pub mod accounts;
pub mod rows;
pub mod blacklist;
pub mod jwt;

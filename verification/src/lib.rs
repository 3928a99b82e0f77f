//! Decision core of the Wyrtloom dashboard API.
//!
//! Three machines decide, and the program around them performs what they ask:
//! [`boot`] takes the program from its command line to serving, [`enforcement`]
//! takes a request through its authentication, and [`operations`] takes a call
//! that was let through to its answer. [`service`] joins the last two: it finds
//! the row of a request and hands a request that met the row's requirement a
//! pass to the row's operation. The `*_laws` modules state what holds of every
//! run of them.

pub mod auth;
pub mod auth_laws;
pub mod boot;
pub mod boot_laws;
pub mod canonical;
pub mod config;
pub mod decimal;
pub mod endpoint_laws;
pub mod enforcement;
pub mod format_laws;
pub mod handlers;
pub mod headers;
pub mod kanban;
pub mod limiter;
pub mod limiter_laws;
pub mod operation_laws;
pub mod operations;
pub mod outside;
pub mod reply;
pub mod request_laws;
pub mod revocation_laws;
pub mod routes;
pub mod service;
pub mod session;
pub mod startup;
pub mod state;
pub mod text;
pub mod users;
pub mod view_laws;

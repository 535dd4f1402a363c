//! The decisions of a terminal explorer over a deployment of hosts and
//! processes: compiling positional addresses into queries, searching records
//! by keyword, scrolling a file viewer, and moving between the views. The
//! program around it reads keys, runs queries and draws; this library says
//! what each of them comes to.

pub mod app;
pub mod components;
pub mod config;
pub mod database;
pub mod description;
pub mod event;
pub mod lookup;
pub mod text;
pub mod tools;
pub mod utils;

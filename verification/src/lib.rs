//! A grammar-aware, black-box mutation fuzzer: the decisions it takes, with
//! their contracts. Processes, files and threads are the caller's part.

pub mod batch;
pub mod config;
pub mod corpus;
pub mod grammar;
pub mod laws;
pub mod oracle;
pub mod outside;
pub mod patterns;
pub mod supervisor;
pub mod triage;
pub mod verdict;

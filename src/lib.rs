//! A small web site: the root redirects to the front page, and the files of
//! one directory are served under `/static`.
//!
//! The library decides every response. The program around it owns the
//! socket and the disk: it hands the library the request path and, when
//! asked, what it found on disk.

pub mod http;
pub mod outside;
pub mod route;
pub mod serve;

//! A verified core for crawling a team's notes on a hosted note-taking service
//! into a local snapshot: run-mode selection, endpoint addresses, the login
//! handshake's decisions, per-request retry decisions and the bounded,
//! order-preserving download queue.
pub mod config;
pub mod error;
pub mod download;
pub mod page;
pub mod auth;
pub mod endpoints;
pub mod retry;
pub mod crawl;

//! cosmicding: a companion for linkding bookmark servers. Accounts,
//! bookmarks and their pagination, the linkding API's requests and replies,
//! Netscape bookmark files, and the application model that ties them
//! together, each with its contract.
use vstd::prelude::*;

pub mod app;
pub mod db;
pub mod escape;
pub mod models;
pub mod numbers;
pub mod pages;
pub mod provider;
pub mod text;
pub mod time;
pub mod utils;


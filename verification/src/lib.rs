//! Verified core of a small web host: the resource repository behind a REST
//! surface, the message codec of the bridge between a native host and its
//! webview, and the decisions of the service, the host and the pages around
//! them.

pub mod articles;
pub mod bridge;
pub mod client;
pub mod config;
pub mod context;
pub mod db;
pub mod error;
pub mod handlers;
pub mod host;
pub mod middleware;
pub mod navigation;
pub mod protocol;
pub mod resources;
pub mod responses;
pub mod router;
pub mod static_server;
pub mod text;
pub mod ui;
pub mod webview_manager;

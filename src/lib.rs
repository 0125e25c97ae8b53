//! Profiles of signed-in users, kept in sync with live clients: sessions,
//! the mutation service that alone writes profiles and announces each
//! committed write, the bounded event bus that fans those announcements
//! out, and the protocol of a live connection (subscribe, snapshot, stream).

pub mod api;
pub mod bus;
pub mod config;
pub mod laws;
pub mod live;
pub mod password;
pub mod service;
pub mod session;
pub mod types;

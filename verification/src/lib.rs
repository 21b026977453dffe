//! Game-server logic: the glider state's decisions, the web UI API's
//! authentication, visitor log and replies, and the version strings.

pub mod glide;
pub mod ui_api;
pub mod version;

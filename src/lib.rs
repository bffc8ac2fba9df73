//! Decides which titles of a watch list have an episode to fetch, reads the
//! tracking service's answer and a torrent search page, and builds the
//! queries the download pipeline sends.
pub mod config;
pub mod dispatch;
pub mod json;
pub mod search;
pub mod text;
pub mod tracking;
pub mod watch;

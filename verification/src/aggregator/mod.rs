//! Log aggregation: container discovery, colorized log entries for the web
//! view, and ANSI to HTML conversion.
pub mod discovery;
pub mod html;
pub mod packages;
pub mod provider;
pub mod streamer;
pub mod web;

//! Parsing and classification of congressional bill announcements taken from
//! a legislative RSS feed.

pub mod bills;
pub mod grammar;
pub mod feed;
pub mod laws;

//! Verified core of a VK community bot that watches a conversation and reposts
//! its pictures to a public wall.

pub mod bot;
pub mod commands;
pub mod config;
pub mod posting;
pub mod text;
pub mod types;

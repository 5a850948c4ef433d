//! Verified core of a Discord bot that renders World of Warships replays
//! into minimap timelapse videos: the decisions of its slash commands, its
//! startup configuration, the loading of extracted game data, what it reads
//! from replay files, and when the video gets its frames.

pub mod command;
pub mod config;
pub mod frames;
pub mod game_data;
pub mod outside;
pub mod replay;
pub mod text;
pub mod translations;
pub mod upload;

//! Account, session and moderation logic of a game-lobby web service.

pub mod models;
pub mod text;
pub mod table;
pub mod outside;
pub mod rules;
pub mod service;
pub mod rooms;
pub mod accounts;
pub mod admin;
pub mod auth;
pub mod laws;

//! A desktop client for Yandex Music: its service client, answers, play
//! queue and window decisions, verified.
pub mod api;
pub mod auth;
pub mod config;
pub mod controller;
pub mod download;
pub mod hotkeys;
pub mod json;
pub mod media_controls;
pub mod player;
pub mod presentation;
pub mod responses;
pub mod session;
pub mod text;

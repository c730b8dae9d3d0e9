pub mod auth;
pub mod config;
pub mod crypto;
pub mod dates;
pub mod dto;
pub mod error;
pub mod estimates;
pub mod guards;
pub mod i18n;
pub mod items;
pub mod jobs;
pub mod laws;
pub mod llm;
pub mod ops;
pub mod text;
pub mod users;

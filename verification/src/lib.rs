//! Authentication and session core: credential checks, refresh-token
//! rotation with theft detection, signed access tokens and single-use
//! tokens, stated over mathematical models and proved against them.

pub mod clock;
pub mod combined;
pub mod config;
pub mod dto;
pub mod email;
pub mod entity;
pub mod errors;
pub mod guard;
pub mod ids;
pub mod jwt;
pub mod laws;
pub mod memory;
pub mod password;
pub mod posts;
pub mod repository;
pub mod service;
pub mod text;
pub mod token_service;
pub mod user_agent;
pub mod users;
pub mod verification;

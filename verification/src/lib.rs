//! Sans-IO core of a chat front end for a camera and object-detection backend.
//!
//! The crate turns chat commands into backend requests and backend responses
//! into replies. It performs no I/O itself: a caller sends each request that
//! the crate describes and hands back what the backend answered.

pub mod api_client;
pub mod bot;
pub mod errors;
pub mod json;
pub mod models;
pub mod schema;
pub mod text;

//! Compiles a registry of language-processing backends into reverse-proxy
//! routes, proxy configuration text and an HTML directory page.
pub mod directory;
pub mod laws;
pub mod model;
pub mod order;
pub mod proxy;
pub mod routes;
pub mod tag_map;
pub mod text;

//! Add-ons: the technologies a GitHub repository offers and the ones
//! installed here.

pub mod types;
pub mod installer;
pub mod storage;
pub mod github;
pub mod fetcher;
pub mod storage_laws;

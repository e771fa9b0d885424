//! A small web-service core: the typed response envelope that maps handler
//! outcomes to HTTP statuses and JSON bodies, the data-source capability with
//! its diagnostic probe, configuration assembled from environment values, and
//! the outcomes of the diagnostic endpoints.

pub mod response;
pub mod db;
pub mod misc;
pub mod config;

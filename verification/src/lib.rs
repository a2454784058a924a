//! Safe, verified core of the typed Luminate C API: input decoding, request
//! validation, owned builders and read accessors.

pub mod status;
pub mod input;
pub mod time;
pub mod access;
pub mod canonical;
pub mod policy;
pub mod client;
pub mod management;
pub mod colour;
pub mod collections;
pub mod effects;
pub mod frame;
pub mod capabilities;
pub mod models;
pub mod requests;
pub mod all_off;

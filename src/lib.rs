//! A conversation driver for a generative-language service: message model,
//! response consolidation, tool dispatch and the send / tool loop.

pub mod client;
pub mod common;
pub mod media;
pub mod outside;
pub mod model;
pub mod request;
pub mod response;
pub mod text;

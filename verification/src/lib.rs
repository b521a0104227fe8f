use vstd::prelude::*;

pub mod text;
pub mod response;
pub mod uri;
pub mod request;
pub mod client;
pub mod image;
pub mod oauth;

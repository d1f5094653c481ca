//! Everything the verifier takes on trust: thin wrappers around functions of
//! other crates and of the standard library, each with the claim it makes.

pub mod clock;
pub mod email;
pub mod hasher;
pub mod ids;
pub mod json;
pub mod jwt;
pub mod text;

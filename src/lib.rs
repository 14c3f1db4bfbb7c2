//! Request handling for a small benchmark HTTP server: path dispatch, the
//! fixed-cost SHA-256 hash chain, and the replies of each endpoint.

pub mod digest;
pub mod handler;
pub mod hexenc;
pub mod seed;

//! The engine's HTTP-facing edge: fixed header values and the extraction of
//! request DTOs from raw header and body text. The transport itself (socket
//! handling, routing) lives outside the library.

pub mod headers;
pub mod routes;
pub mod utils;

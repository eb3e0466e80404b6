//! What crosses the boundary of the system: the shapes of requests and
//! responses.

pub mod dto;

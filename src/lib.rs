//! Client logic for the Lastkajen file service of the Swedish Transport
//! Administration: its data model, its endpoints, the handling of its
//! responses and the copy of downloaded bytes.

pub mod decimal;
pub mod download;
pub mod endpoints;
pub mod error;
pub mod response;
pub mod types;

//! A read-only query service over the creature dataset of `pokemon_rs`:
//! request routing, input validation and response shaping, verified.

pub mod dataset;
pub mod text;
pub mod response;
pub mod handlers;
pub mod router;
pub mod laws;

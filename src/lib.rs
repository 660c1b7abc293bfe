//! Device records read from Kismet capture databases, and the facts derived
//! from their JSON metadata documents.
pub mod json;
pub mod text;
pub mod value;
pub mod device;
pub mod query;

pub use json::Json;
pub use device::{KismetDevice, UtcTime};

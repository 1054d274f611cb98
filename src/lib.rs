//! Registry of environmental-credit projects: lifecycle, escrowed verification
//! fees, spatial double-claim prevention and capacity-bounded issuance.

pub mod errors;
pub mod types;
pub mod geo;
pub mod double_counting;
pub mod registration;
pub mod issuance;
pub mod escrow;
pub mod directory;
pub mod lifecycle;
pub mod laws;

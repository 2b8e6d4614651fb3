//! A reproducible fitness-evaluation contract for neuroevolution.
//!
//! The crate defines the capability a problem definition must offer to an
//! evolutionary driver (`Problem`, `NeuroProblem`) and one concrete
//! deterministic benchmark family: symbolic-regression target functions
//! evaluated over a fixed, seeded sample sequence.

pub mod float_bits;
pub mod neproblem;
pub mod network;
pub mod problem;
pub mod sampling;

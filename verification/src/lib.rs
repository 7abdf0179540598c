//! Hashing to the BLS12-381 G1 group, the drand round fetch helpers and the
//! gas bookkeeping of the EVM benchmarks, with their contracts proved.

pub mod field;
pub mod field_lemmas;
pub mod swu;
pub mod isogeny;
pub mod hash_to_curve;
pub mod gas;
pub mod drand;
pub mod report;
pub mod nonresidue;
pub mod euler;
pub mod cubic;
pub mod cubic_certificate;
pub mod horner;
pub mod isogeny_certificate;

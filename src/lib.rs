//! Identification of Mirabox / Ajazz style stream controllers by their USB
//! identifiers, and the per-model facts that the image pipeline needs.

pub mod hid;
pub mod mappings;

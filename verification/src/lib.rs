//! Validation and expansion of state enums.
//!
//! A state enum is an enumeration whose members are all bare tags. Given the
//! declaration of one, this library checks it, marks its first member as the
//! default, requests the baseline capabilities for it and synthesizes the
//! table and the two traversal rules by which its values are stepped forward
//! and backward in a cycle.

pub mod cycle;
pub mod declaration;
pub mod diagnostic;
pub mod validate;
pub mod augment;
pub mod navigation;
pub mod emit;
pub mod expand;

pub use expand::state_enum;

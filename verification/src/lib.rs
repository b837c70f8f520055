//! Converts YAML source text into a host-agnostic dynamic value tree.
//!
//! The external parser turns text into `Node` trees, one per `---`-separated
//! document; the converter maps each tree onto a `DynamicValue`, applying a
//! fixed scalar coercion policy, and collects the results into a
//! `DocumentSet` in source order.

pub mod convert;
pub mod float;
pub mod node;
pub mod parse;
pub mod value;

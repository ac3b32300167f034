//! A constraint-based layout resolver for one system of engraved music.
//!
//! A [`layout::LayoutSystem`] describes a system as horizontal and vertical
//! grid lines and rectangular blocks, tied together by relative positioning
//! rules. [`layout::LayoutSystem::engrave`] turns every rule into a linear
//! relation between unknown coordinates, hands the relations to a Cassowary
//! solver, separates blocks that collide, justifies the result to the target
//! width and reads the solved coordinates back.
//!
//! All lengths and coordinates are whole numbers of thousandths of a stave
//! space (see [`units`]). The solver itself computes in double precision;
//! whole coefficients and constants go in unchanged and each solved value
//! comes back rounded to a whole number of thousandths.

pub mod units;
pub mod error;
pub mod grid;
pub mod block;
pub mod relation;
pub mod rules;
pub mod solver;
pub mod layout;
pub mod posting;
pub mod collision;
pub mod resolution;
pub mod justification;
pub mod engraving;
pub mod engrave;
pub mod laws;

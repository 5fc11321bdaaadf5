//! Genetic programming over the control programs of a moon lander.
//!
//! A population of small programs is evolved by tournament selection,
//! mutation and subtree crossover. The programs are trees; see `structure`.
pub mod structure;
pub mod visit;
pub mod depth;
pub mod copy;
pub mod data;
pub mod num;
pub mod pick;
pub mod random;
pub mod serialize;
pub mod darwin;
pub mod simplify;
pub mod source;
pub mod text;


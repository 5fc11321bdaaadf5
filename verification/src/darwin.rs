//! The evolutionary engine: mutation, crossover, and the population that
//! they work on.
pub mod crossover;
pub mod evolve;
pub mod mutation;
pub mod order;

//! Building blocks for evolutionary search: candidates ordered by an
//! optional fitness, and a driver that advances a population by one
//! generation through caller-supplied strategies.

pub mod fitness;
pub mod individual;
pub mod solver;

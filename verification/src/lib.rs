//! Stigmergic signal layer: time-decaying signals ("pheromones") deposited on
//! a shared blackboard let independent workers coordinate without ever talking
//! to one another. A signal's strength is recomputed lazily from its age on
//! every read; when a producer goes silent its signals decay below threshold
//! and downstream consumers go dormant.

pub mod blackboard;
pub mod codec;
pub mod config;
pub mod decay;
pub mod physics;

//! Book-keeping core of a toy simulation of charged particles.
//!
//! The crate owns the particles, their kinds and physical constants, the
//! rule that decides which particles act on which, the commit of a step
//! computed from the state before it, and the bounded trail of recent
//! positions. Numbers are single-precision values held as their IEEE 754
//! bit patterns: the crate stores them, tells zero from non-zero and flips
//! signs, and leaves the arithmetic on them to its host.

pub mod force;
pub mod particle;
pub mod replay;
pub mod scalar;
pub mod simulation;
pub mod trail;

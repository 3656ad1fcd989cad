//! An interpreter for the Intel 8080 processor as it sits in the Space
//! Invaders arcade board: registers and flags, the instruction set, the
//! board's shift register and ports, and the scheduler that runs the
//! processor one video half-frame at a time.
pub mod bits;
pub mod condition_codes;
pub mod cycles;
pub mod input;
pub mod instruction;
pub mod intel8080_state;
pub mod interpreter;
pub mod laws;
pub mod scheduler;
pub mod sounds;
pub mod video;

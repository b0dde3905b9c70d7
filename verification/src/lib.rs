//! Execution core of a CHIP-8 style virtual machine.
//!
//! `model` holds the mathematical description of the processor: its state as
//! plain sequences and integers, the effect of every instruction, and the
//! meaning of running a program. `cpu` holds the executable processor, whose
//! functions are proved to follow that description. `laws` states what
//! instruction sequences do from any state, proved from the model.

pub mod model;
pub mod cpu;
pub mod laws;

//! Processor identification and boot dispatch for a console with two
//! processors that start from one boot image.
//!
//! Both processors run the same entry code. Each reads its own
//! identification register, isolates the model field and from it alone
//! learns which of the two it is, or that it is neither.
//!
//! Reading the register and the setup work itself need the hardware and are
//! left to the program around this library. Here stand the register's layout
//! ([`cop0`]) and the decision ([`boot`]), proved for every identification
//! value.

pub mod boot;
pub mod cop0;

pub use boot::{_start, ee_setup, iop_setup, BootError, BootTarget};

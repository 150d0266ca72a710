//! The instruction set, one function per instruction form.

pub mod cbprefixed;
pub mod unprefixed;

//! Core of a toolchain version manager: decide which version of a tool is
//! active in the current working context, and check the integrity of a
//! downloaded artifact against a checksum manifest before it is trusted.

pub mod checksum;
pub mod detect;
pub mod ext;
pub mod text;

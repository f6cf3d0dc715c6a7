//! Lists the compilation units that a module's DWARF debugging information
//! describes: for each unit outside the toolchain its name and compilation
//! directory, followed by the split unit that a companion package holds for it.

pub mod hex;
pub mod error;
pub mod load;
pub mod container;
pub mod debug_info;
pub mod unit;
pub mod dump;
pub mod laws;

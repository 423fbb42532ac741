//! Work RAM, high RAM and the map of the address space.

pub mod ram;
pub mod regions;

//! The operations of the controller.

pub mod master;
pub mod split;
pub mod vault;

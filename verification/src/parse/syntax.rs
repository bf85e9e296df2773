//! The languages whose syntax can be read.

pub mod c;

//! The kinds of element that can be declared.

pub mod button;
pub mod division;
pub mod paragraph;

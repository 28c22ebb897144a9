//! A declarative element tree: elements, the builder that nests them, and
//! the notation that declares them.

pub mod builder;
pub mod declare;
pub mod document;
pub mod element;
pub mod proto;

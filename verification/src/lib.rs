//! Two primitives for terminal I/O: deciding from the environment whether a
//! terminal answers capability queries, and the decisions around a wait for a
//! descriptor to become readable.

pub mod poll;
pub mod terminal;
pub mod text;

//! Views that present an existing graph differently without copying it.

pub mod reversedigraph;

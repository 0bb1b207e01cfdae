//! Building blocks shared by the representation: typed indices and the
//! arena they address.

pub mod idx;

pub use idx::Idx;
pub use idx::IdxVec;

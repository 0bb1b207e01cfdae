//! A control-flow-graph representation of function bodies, addressed through
//! typed indices, together with the builders that assemble it.

pub mod common;
pub mod ir;

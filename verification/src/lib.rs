//! The layout in memory of the types of a shader program: for each type of a
//! type arena its size and its alignment, and for each member of a struct the
//! bytes that it takes.

pub mod arena;
pub mod ir;
pub mod proc;

pub use arena::{Arena, Handle};
pub use ir::{
    ArraySize, Constant, ConstantInner, ScalarKind, ScalarValue, StructMember, Type, TypeInner,
    VectorSize,
};

//! The types and the constants of a program, as far as their layout goes.

use crate::arena::Handle;
use crate::proc::alignment::Alignment;
use vstd::prelude::*;

verus! {

/// The number of components of a vector, or of columns or rows of a matrix.
#[derive(Clone, Copy, Debug, PartialEq, Eq, Hash)]
pub enum VectorSize {
    /// Two.
    Bi,
    /// Three.
    Tri,
    /// Four.
    Quad,
}

impl VectorSize {
    /// The number that the size stands for.
    pub open spec fn spec_count(self) -> u8 {
        match self {
            VectorSize::Bi => 2,
            VectorSize::Tri => 3,
            VectorSize::Quad => 4,
        }
    }

    /// The number that the size stands for.
    #[verifier::when_used_as_spec(spec_count)]
    pub fn count(self) -> (count: u8)
        ensures
            count == self.spec_count(),
    {
        match self {
            VectorSize::Bi => 2,
            VectorSize::Tri => 3,
            VectorSize::Quad => 4,
        }
    }
}

/// What kind of number a scalar is.
#[derive(Clone, Copy, Debug, PartialEq, Eq, Hash)]
pub enum ScalarKind {
    /// A signed integer.
    Sint,
    /// An unsigned integer.
    Uint,
    /// A floating-point number.
    Float,
    /// A truth value.
    Bool,
}

/// How many elements an array has.
#[derive(Clone, Copy, Debug, PartialEq, Eq, Hash)]
pub enum ArraySize {
    /// As many as the constant says.
    Constant(Handle<Constant>),
    /// A number that is known only when the program runs.
    Dynamic,
}

/// One member of a struct.
#[derive(Clone, Copy, Debug, PartialEq, Eq, Hash)]
pub struct StructMember {
    /// The member's type.
    pub ty: Handle<Type>,
    /// The alignment to use in place of that of the member's type.
    pub align: Option<Alignment>,
    /// The number of bytes to use in place of the size of the member's type.
    pub size: Option<u32>,
}

/// The shape of a type.
#[derive(Clone, Debug, PartialEq, Eq, Hash)]
#[allow(inconsistent_fields)]
pub enum TypeInner {
    /// A single number of `width` bytes.
    Scalar { kind: ScalarKind, width: u8 },
    /// `size` numbers of `width` bytes each.
    Vector { size: VectorSize, kind: ScalarKind, width: u8 },
    /// `columns` columns of `rows` numbers of `width` bytes each.
    Matrix { columns: VectorSize, rows: VectorSize, width: u8 },
    /// A reference to a value in memory.
    Pointer,
    /// A reference to a scalar or vector inside a value in memory.
    ValuePointer,
    /// Elements of type `base`, `stride` bytes apart where a stride is given.
    Array { base: Handle<Type>, size: ArraySize, stride: Option<Alignment> },
    /// The members one after another, in this order.
    Struct { block: bool, members: Vec<StructMember> },
    /// A texture. It does not live in memory.
    Image,
    /// A sampler. It does not live in memory.
    Sampler,
}

/// A type of the program. A type refers only to types that stand before it in
/// the type arena.
#[derive(Clone, Debug, PartialEq, Eq, Hash)]
pub struct Type {
    /// The shape of the type.
    pub inner: TypeInner,
}

/// The value of a scalar constant.
#[derive(Clone, Copy, Debug, PartialEq, Eq, Hash)]
pub enum ScalarValue {
    /// A signed integer.
    Sint(i64),
    /// An unsigned integer.
    Uint(u64),
    /// A floating-point number, as the bits of its IEEE 754 binary64 form.
    Float(u64),
    /// A truth value.
    Bool(bool),
}

/// The shape of a constant.
#[derive(Clone, Debug, PartialEq, Eq, Hash)]
pub enum ConstantInner {
    /// A single value of `width` bytes.
    Scalar { width: u8, value: ScalarValue },
    /// A value of type `ty` made of other constants.
    Composite { ty: Handle<Type>, components: Vec<Handle<Constant>> },
}

/// A constant of the program.
#[derive(Clone, Debug, PartialEq, Eq, Hash)]
pub struct Constant {
    /// The shape of the constant.
    pub inner: ConstantInner,
}

} // verus!

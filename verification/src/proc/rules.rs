//! The layout rules, as functions of mathematics. They say what size and
//! alignment each type has; the layouter computes them.

use crate::arena::Handle;
use crate::ir::{
    ArraySize, Constant, ConstantInner, ScalarValue, StructMember, Type, TypeInner, VectorSize,
};
use crate::proc::alignment::Alignment;
use vstd::prelude::*;

verus! {

/// The size and the alignment of a type, both in bytes.
pub struct Layout {
    pub size: u32,
    pub alignment: u32,
}

/// Where a struct member lies: its first byte, the byte behind its last, and
/// the alignment it was placed with.
pub struct Placement {
    pub start: u32,
    pub end: u32,
    pub alignment: u32,
}

/// What placing some members of a struct one after another comes to: the byte
/// behind the last of them and the biggest alignment among them.
pub struct Span {
    pub end: u32,
    pub alignment: u32,
}

/// Why a type has no layout.
#[derive(Clone, Copy, Debug, PartialEq, Eq, Hash)]
pub enum LayoutErrorKind {
    /// A scalar, a vector or a matrix is made of numbers of no bytes, so that
    /// its alignment would be zero.
    ZeroWidth,
    /// The length of an array names a constant that the constant arena does
    /// not hold.
    UnknownConstant,
    /// The length of an array names a constant that is not a scalar integer.
    NonIntegerConstant,
    /// The element type of an array without a stride, or the type of a struct
    /// member, does not stand before the type in the type arena.
    UndefinedType,
    /// An array without a stride has elements of no bytes, so that its stride
    /// would be zero.
    ZeroStride,
    /// A size does not fit in 32 bits.
    Overflow,
}

/// What a rule comes to: a value, or the reason why there is none.
pub type Outcome<T> = Result<T, LayoutErrorKind>;

/// That the type at position `index` of the type arena has no layout, and
/// why. The position is the index of the type's handle.
#[derive(Clone, Copy, Debug, PartialEq, Eq, Hash)]
pub struct LayoutError {
    pub index: usize,
    pub kind: LayoutErrorKind,
}

/// The value that rounding `offset` for `alignment` yields: an offset that
/// has no bit in common with the alignment is kept, any other is moved
/// forward by the alignment less the bits that the two have in common.
pub open spec fn round_up_spec(alignment: u32, offset: u32) -> int {
    if offset & alignment == 0 {
        offset as int
    } else {
        offset + alignment - (offset & alignment)
    }
}

/// The lowest 32 bits of an integer, read as an unsigned number.
pub open spec fn low_bits(value: int) -> u32 {
    (value % 0x1_0000_0000) as u32
}

/// By how much the width of a number is multiplied to give the alignment of a
/// vector of `lanes` such numbers.
pub open spec fn lane_factor(lanes: VectorSize) -> int {
    if lanes.spec_count() >= 3 {
        4
    } else {
        2
    }
}

/// The number of elements that `size` gives an array: the integer value of
/// the constant it names, cut to 32 bits, and zero for a length that is known
/// only when the program runs.
pub open spec fn array_count(size: ArraySize, constants: Seq<Constant>) -> Outcome<u32> {
    match size {
        ArraySize::Dynamic => Ok(0),
        ArraySize::Constant(handle) => if handle@ >= constants.len() {
            Err(LayoutErrorKind::UnknownConstant)
        } else {
            match constants[handle@ as int].inner {
                ConstantInner::Scalar { width: _, value: ScalarValue::Uint(value) } => Ok(
                    low_bits(value as int),
                ),
                ConstantInner::Scalar { width: _, value: ScalarValue::Sint(value) } => Ok(
                    low_bits(value as int),
                ),
                _ => Err(LayoutErrorKind::NonIntegerConstant),
            }
        },
    }
}

/// The distance in bytes between two elements of an array: the stride it was
/// given, or else the size of the element type rounded for the alignment of
/// the element type. `earlier` holds the layouts of the types that stand
/// before the array type. An array with a stride of its own does not ask for
/// the layout of its element type.
pub open spec fn array_stride(
    stride: Option<Alignment>,
    base: Handle<Type>,
    earlier: Seq<Layout>,
) -> Outcome<u32> {
    match stride {
        Some(given) => Ok(given@),
        None => if base@ >= earlier.len() {
            Err(LayoutErrorKind::UndefinedType)
        } else {
            let element = earlier[base@ as int];
            let rounded = round_up_spec(element.alignment, element.size);
            if rounded == 0 {
                Err(LayoutErrorKind::ZeroStride)
            } else {
                Ok(rounded as u32)
            }
        },
    }
}

/// Where `member` lies in a struct whose earlier members end at `offset`: it
/// starts at the offset rounded for its alignment and ends its size further
/// on. Alignment and size are those of the member's type unless the member
/// has its own. `table` holds the layouts of the types that the member may
/// refer to.
pub open spec fn placement(table: Seq<Layout>, offset: u32, member: StructMember) -> Outcome<
    Placement,
> {
    if member.ty@ >= table.len() {
        Err(LayoutErrorKind::UndefinedType)
    } else {
        let layout = table[member.ty@ as int];
        let alignment = match member.align {
            Some(given) => given@,
            None => layout.alignment,
        };
        let size = match member.size {
            Some(given) => given,
            None => layout.size,
        };
        let start = round_up_spec(alignment, offset);
        if start + size > u32::MAX {
            Err(LayoutErrorKind::Overflow)
        } else {
            Ok(Placement { start: start as u32, end: (start + size) as u32, alignment })
        }
    }
}

/// What placing `members` one after another from byte 0 comes to. Without
/// members the end is 0 and the alignment 1.
pub open spec fn span(table: Seq<Layout>, members: Seq<StructMember>) -> Outcome<Span>
    decreases members.len(),
{
    if members.len() == 0 {
        Ok(Span { end: 0, alignment: 1 })
    } else {
        match span(table, members.drop_last()) {
            Err(kind) => Err(kind),
            Ok(before) => match placement(table, before.end, members.last()) {
                Err(kind) => Err(kind),
                Ok(placed) => Ok(
                    Span {
                        end: placed.end,
                        alignment: if placed.alignment > before.alignment {
                            placed.alignment
                        } else {
                            before.alignment
                        },
                    },
                ),
            },
        }
    }
}

/// The layout of `ty`, or why it has none. `earlier` holds the layouts of the
/// types that stand before `ty` in the type arena: those are the types that
/// `ty` may refer to.
pub open spec fn layout_of(ty: Type, earlier: Seq<Layout>, constants: Seq<Constant>) -> Outcome<
    Layout,
> {
    match ty.inner {
        TypeInner::Scalar { kind: _, width } => if width == 0 {
            Err(LayoutErrorKind::ZeroWidth)
        } else {
            Ok(Layout { size: width as u32, alignment: width as u32 })
        },
        TypeInner::Vector { size, kind: _, width } => if width == 0 {
            Err(LayoutErrorKind::ZeroWidth)
        } else {
            Ok(
                Layout {
                    size: (size.spec_count() * width) as u32,
                    alignment: (lane_factor(size) * width) as u32,
                },
            )
        },
        TypeInner::Matrix { columns, rows, width } => if width == 0 {
            Err(LayoutErrorKind::ZeroWidth)
        } else {
            Ok(
                Layout {
                    size: (columns.spec_count() * rows.spec_count() * width) as u32,
                    alignment: (lane_factor(rows) * width) as u32,
                },
            )
        },
        TypeInner::Pointer | TypeInner::ValuePointer => Ok(Layout { size: 4, alignment: 1 }),
        TypeInner::Array { base, size, stride } => match array_count(size, constants) {
            Err(kind) => Err(kind),
            Ok(count) => match array_stride(stride, base, earlier) {
                Err(kind) => Err(kind),
                Ok(stride) => if count * stride > u32::MAX {
                    Err(LayoutErrorKind::Overflow)
                } else {
                    Ok(Layout { size: (count * stride) as u32, alignment: stride })
                },
            },
        },
        TypeInner::Struct { block: _, members } => match span(earlier, members@) {
            Err(kind) => Err(kind),
            Ok(all) => Ok(
                Layout {
                    size: round_up_spec(all.alignment, all.end) as u32,
                    alignment: all.alignment,
                },
            ),
        },
        TypeInner::Image | TypeInner::Sampler => Ok(Layout { size: 0, alignment: 1 }),
    }
}

/// Whether `table` is the layout table of `types`: it has one layout for each
/// type, and each is the layout that the rules give to the type at that
/// position, from the layouts before it.
pub open spec fn is_table_of(
    table: Seq<Layout>,
    types: Seq<Type>,
    constants: Seq<Constant>,
) -> bool {
    &&& table.len() == types.len()
    &&& forall|i: int|
        0 <= i < types.len() ==> #[trigger] layout_of(types[i], table.take(i), constants)
            == Outcome::Ok(table[i])
}

/// Whether the types have a layout table.
pub open spec fn layoutable(types: Seq<Type>, constants: Seq<Constant>) -> bool {
    exists|table: Seq<Layout>| is_table_of(table, types, constants)
}

/// Whether `error` is what stops the layout of `types`, and `before` what was
/// laid out until then: `before` is the layout table of the types before
/// position `error.index`, and the rules give the type at that position no
/// layout, for the reason `error.kind`.
pub open spec fn stops_at(
    before: Seq<Layout>,
    types: Seq<Type>,
    constants: Seq<Constant>,
    error: LayoutError,
) -> bool {
    &&& error.index < types.len()
    &&& is_table_of(before, types.take(error.index as int), constants)
    &&& layout_of(types[error.index as int], before, constants) == Outcome::<Layout>::Err(
        error.kind,
    )
}

/// Whether `error` is what stops the layout of `types`.
pub open spec fn fails_with(
    types: Seq<Type>,
    constants: Seq<Constant>,
    error: LayoutError,
) -> bool {
    exists|before: Seq<Layout>| stops_at(before, types, constants, error)
}

} // verus!

//! The layouter: it computes the layout table of a type arena by the layout
//! rules and answers from it.

use crate::arena::{Arena, Handle};
use crate::ir::{ArraySize, Constant, ConstantInner, ScalarValue, StructMember, Type, TypeInner};
use crate::proc::alignment::Alignment;
use crate::proc::laws::{
    lemma_error_excludes_table, lemma_round_up_bits, lemma_span_stops, lemma_table_grows,
};
use crate::proc::rules::{
    array_count, array_stride, fails_with, is_table_of, layout_of, layoutable, placement,
    round_up_spec, span, stops_at, Layout, LayoutError, LayoutErrorKind, Outcome, Placement, Span,
};
use core::ops::Range;
use vstd::prelude::*;

verus! {

/// The size and the alignment of a type, both in bytes.
#[derive(Clone, Copy, Debug, Hash, PartialEq)]
pub struct TypeLayout {
    pub size: u32,
    pub alignment: Alignment,
}

impl View for TypeLayout {
    type V = Layout;

    open spec fn view(&self) -> Layout {
        Layout { size: self.size, alignment: self.alignment@ }
    }
}

impl TypeLayout {
    /// Two layouts of the same size and the same alignment are the same
    /// layout.
    pub proof fn lemma_view_is_injective(first: TypeLayout, second: TypeLayout)
        requires
            first@ == second@,
        ensures
            first == second,
    {
        Alignment::lemma_view_is_injective(first.alignment, second.alignment);
    }
}

/// The placement that a range of bytes and an alignment, returned together,
/// stand for.
pub open spec fn as_placement(placed: (Range<u32>, Alignment)) -> Placement {
    Placement { start: placed.0.start, end: placed.0.end, alignment: placed.1@ }
}

/// The table of the layouts of all types of a type arena, one for each
/// handle. It is built from the arena as a whole and does not follow the
/// arena when types are added.
#[derive(Debug)]
pub struct Layouter {
    layouts: Vec<TypeLayout>,
}

impl View for Layouter {
    type V = Seq<Layout>;

    closed spec fn view(&self) -> Seq<Layout> {
        self.layouts@.map_values(|layout: TypeLayout| layout@)
    }
}

impl Layouter {
    /// The layout table of `types`. The types must have one: see
    /// [`Layouter::try_new`] for types of which this is not known.
    pub fn new(types: &Arena<Type>, constants: &Arena<Constant>) -> (made: Layouter)
        requires
            layoutable(types@, constants@),
        ensures
            is_table_of(made@, types@, constants@),
    {
        let mut this = Layouter::default();
        this.initialize(types, constants);
        this
    }

    /// The layout table of `types`, or which type has no layout and why.
    pub fn try_new(types: &Arena<Type>, constants: &Arena<Constant>) -> (made: Result<
        Layouter,
        LayoutError,
    >)
        ensures
            match made {
                Ok(table) => is_table_of(table@, types@, constants@),
                Err(error) => fails_with(types@, constants@, error),
            },
            made is Ok <==> layoutable(types@, constants@),
    {
        let mut this = Layouter::default();
        match this.try_initialize(types, constants) {
            Ok(()) => Ok(this),
            Err(error) => Err(error),
        }
    }

    /// Rounds `offset` for `alignment`: an offset that has no bit in common
    /// with the alignment is kept, any other is moved forward by the
    /// alignment less the bits that the two have in common.
    pub fn round_up(alignment: Alignment, offset: u32) -> (rounded: u32)
        ensures
            rounded == round_up_spec(alignment@, offset),
            rounded >= offset,
    {
        let boundary = alignment.get();
        let common: u32 = offset & boundary;
        if common == 0 {
            offset
        } else {
            // The bits in common are taken off the alignment before it is
            // added: the sum of offset and alignment may not fit in 32 bits,
            // the result always does.
            assert(common <= boundary && offset + (boundary - common) <= u32::MAX) by (bit_vector)
                requires
                    common == offset & boundary,
            ;
            offset + (boundary - common)
        }
    }

    /// The bytes that `member` takes in a struct whose earlier members end at
    /// `offset`, and the alignment it is placed with. The table must hold the
    /// layout of the member's type, and the bytes must end within 32 bits:
    /// see [`Layouter::try_member_placement`] for a member of which this is
    /// not known.
    pub fn member_placement(&self, offset: u32, member: &StructMember) -> (placed: (
        Range<u32>,
        Alignment,
    ))
        requires
            placement(self@, offset, *member) is Ok,
        ensures
            placement(self@, offset, *member) == Outcome::Ok(as_placement(placed)),
    {
        let layout = self.layouts[member.ty.index()];
        let alignment = match member.align {
            Some(given) => given,
            None => layout.alignment,
        };
        let start = Self::round_up(alignment, offset);
        let end = start + match member.size {
            Some(size) => size,
            None => layout.size,
        };
        (start..end, alignment)
    }

    /// The bytes that `member` takes in a struct whose earlier members end at
    /// `offset`, and the alignment it is placed with; or why it cannot be
    /// placed.
    pub fn try_member_placement(&self, offset: u32, member: &StructMember) -> (placed: Outcome<
        (Range<u32>, Alignment),
    >)
        ensures
            match placed {
                Ok(bytes) => placement(self@, offset, *member) == Outcome::Ok(as_placement(bytes)),
                Err(kind) => placement(self@, offset, *member) == Outcome::<Placement>::Err(kind),
            },
    {
        let layout = match self.try_resolve(member.ty) {
            Some(layout) => layout,
            None => {
                return Err(LayoutErrorKind::UndefinedType);
            },
        };
        let alignment = match member.align {
            Some(given) => given,
            None => layout.alignment,
        };
        let size = match member.size {
            Some(given) => given,
            None => layout.size,
        };
        let start = Self::round_up(alignment, offset);
        match start.checked_add(size) {
            Some(end) => Ok((start..end, alignment)),
            None => Err(LayoutErrorKind::Overflow),
        }
    }

    /// Makes this the layout table of `types`, whatever it held before. The
    /// types must have a layout table: see [`Layouter::try_initialize`] for
    /// types of which this is not known.
    pub fn initialize(&mut self, types: &Arena<Type>, constants: &Arena<Constant>)
        requires
            layoutable(types@, constants@),
        ensures
            is_table_of(final(self)@, types@, constants@),
    {
        self.try_initialize(types, constants).unwrap()
    }

    /// Makes this the layout table of `types`, whatever it held before; or
    /// says which type has no layout and why, and leaves the layout table of
    /// the types before that one.
    pub fn try_initialize(&mut self, types: &Arena<Type>, constants: &Arena<Constant>) -> (done:
        Result<(), LayoutError>)
        ensures
            match done {
                Ok(()) => is_table_of(final(self)@, types@, constants@),
                Err(error) => stops_at(final(self)@, types@, constants@, error),
            },
            done is Ok <==> layoutable(types@, constants@),
    {
        self.layouts.clear();
        self.layouts.reserve(types.len());
        let items = types.as_slice();
        let mut i: usize = 0;
        while i < items.len()
            invariant
                items@ == types@,
                i <= items.len(),
                is_table_of(self@, types@.take(i as int), constants@),
            decreases items.len() - i,
        {
            match self.type_layout(&items[i], constants) {
                Ok(layout) => {
                    let ghost before = self@;
                    self.layouts.push(layout);
                    proof {
                        assert(self@ =~= before.push(layout@));
                        lemma_table_grows(before, types@, constants@, layout@);
                    }
                },
                Err(kind) => {
                    let error = LayoutError { index: i, kind };
                    proof {
                        assert(stops_at(self@, types@, constants@, error));
                        lemma_error_excludes_table(types@, constants@, error);
                    }
                    return Err(error);
                },
            }
            i += 1;
        }
        proof {
            assert(types@.take(i as int) =~= types@);
        }
        Ok(())
    }

    /// The layout of the type that `handle` refers to. The handle must be one
    /// of the arena that the table was built from: see
    /// [`Layouter::try_resolve`] for a handle of which this is not known.
    pub fn resolve(&self, handle: Handle<Type>) -> (found: TypeLayout)
        requires
            handle@ < self@.len(),
        ensures
            found@ == self@[handle@ as int],
    {
        self.layouts[handle.index()]
    }

    /// The layout of the type that `handle` refers to, or `None` where the
    /// table has no layout for it.
    pub fn try_resolve(&self, handle: Handle<Type>) -> (found: Option<TypeLayout>)
        ensures
            handle@ < self@.len() <==> found is Some,
            found matches Some(layout) ==> layout@ == self@[handle@ as int],
    {
        let index = handle.index();
        if index < self.layouts.len() {
            Some(self.layouts[index])
        } else {
            None
        }
    }

    /// The layout of `ty`, which may refer to the types that the table has
    /// layouts for; or why it has none.
    fn type_layout(&self, ty: &Type, constants: &Arena<Constant>) -> (computed: Outcome<
        TypeLayout,
    >)
        ensures
            match computed {
                Ok(layout) => layout_of(*ty, self@, constants@) == Outcome::Ok(layout@),
                Err(kind) => layout_of(*ty, self@, constants@) == Outcome::<Layout>::Err(kind),
            },
    {
        match &ty.inner {
            TypeInner::Scalar { kind: _, width } => match Alignment::new(*width as u32) {
                Some(alignment) => Ok(TypeLayout { size: *width as u32, alignment }),
                None => Err(LayoutErrorKind::ZeroWidth),
            },
            TypeInner::Vector { size, kind: _, width } => {
                let factor: u32 = if size.count() >= 3 {
                    4
                } else {
                    2
                };
                let lanes = size.count() as u32;
                let bytes = *width as u32;
                assert(lanes * bytes <= 1020) by (nonlinear_arith)
                    requires
                        lanes <= 4,
                        bytes <= 255,
                ;
                match Alignment::new(factor * bytes) {
                    Some(alignment) => Ok(TypeLayout { size: lanes * bytes, alignment }),
                    None => Err(LayoutErrorKind::ZeroWidth),
                }
            },
            TypeInner::Matrix { columns, rows, width } => {
                let factor: u32 = if rows.count() >= 3 {
                    4
                } else {
                    2
                };
                let across = columns.count() as u32;
                let down = rows.count() as u32;
                let bytes = *width as u32;
                assert(across * down <= 16 && across * down * bytes <= 4080) by (nonlinear_arith)
                    requires
                        across <= 4,
                        down <= 4,
                        bytes <= 255,
                ;
                match Alignment::new(factor * bytes) {
                    Some(alignment) => Ok(TypeLayout { size: across * down * bytes, alignment }),
                    None => Err(LayoutErrorKind::ZeroWidth),
                }
            },
            TypeInner::Pointer | TypeInner::ValuePointer => Ok(
                TypeLayout { size: 4, alignment: Alignment::new(1).unwrap() },
            ),
            TypeInner::Array { base, size, stride } => {
                let count = Self::array_count(*size, constants)?;
                let stride = self.array_stride(*stride, *base)?;
                match count.checked_mul(stride.get()) {
                    Some(size) => Ok(TypeLayout { size, alignment: stride }),
                    None => Err(LayoutErrorKind::Overflow),
                }
            },
            TypeInner::Struct { block: _, members } => {
                let (total, biggest) = self.struct_span(members)?;
                proof {
                    lemma_round_up_bits(biggest@, total);
                }
                Ok(TypeLayout { size: Self::round_up(biggest, total), alignment: biggest })
            },
            TypeInner::Image | TypeInner::Sampler => Ok(
                TypeLayout { size: 0, alignment: Alignment::new(1).unwrap() },
            ),
        }
    }

    /// The number of elements that `size` gives an array.
    fn array_count(size: ArraySize, constants: &Arena<Constant>) -> (count: Outcome<u32>)
        ensures
            count == array_count(size, constants@),
    {
        match size {
            ArraySize::Dynamic => Ok(0),
            ArraySize::Constant(handle) => match constants.try_get(handle) {
                None => Err(LayoutErrorKind::UnknownConstant),
                Some(constant) => match constant.inner {
                    ConstantInner::Scalar { width: _, value: ScalarValue::Uint(value) } => {
                        assert((value as u32) == (value as int) % 0x1_0000_0000) by (bit_vector);
                        Ok(
                            #[verifier::truncate]
                            (value as u32),
                        )
                    },
                    // A signed length is accepted too, so that a length need
                    // not be written as an unsigned literal.
                    ConstantInner::Scalar { width: _, value: ScalarValue::Sint(value) } => {
                        assert((value as u32) == (value as int) % 0x1_0000_0000) by (bit_vector);
                        Ok(
                            #[verifier::truncate]
                            (value as u32),
                        )
                    },
                    _ => Err(LayoutErrorKind::NonIntegerConstant),
                },
            },
        }
    }

    /// The distance in bytes between two elements of an array of elements of
    /// type `base`.
    fn array_stride(&self, stride: Option<Alignment>, base: Handle<Type>) -> (distance: Outcome<
        Alignment,
    >)
        ensures
            match distance {
                Ok(bytes) => array_stride(stride, base, self@) == Outcome::Ok(bytes@),
                Err(kind) => array_stride(stride, base, self@) == Outcome::<u32>::Err(kind),
            },
    {
        match stride {
            Some(given) => Ok(given),
            None => match self.try_resolve(base) {
                None => Err(LayoutErrorKind::UndefinedType),
                Some(element) => match Alignment::new(
                    Self::round_up(element.alignment, element.size),
                ) {
                    Some(rounded) => Ok(rounded),
                    None => Err(LayoutErrorKind::ZeroStride),
                },
            },
        }
    }

    /// Places `members` one after another from byte 0: the byte behind the
    /// last of them and the biggest alignment among them.
    fn struct_span(&self, members: &Vec<StructMember>) -> (placed: Outcome<(u32, Alignment)>)
        ensures
            match placed {
                Ok((end, alignment)) => span(self@, members@) == Outcome::Ok(
                    (Span { end, alignment: alignment@ }),
                ),
                Err(kind) => span(self@, members@) == Outcome::<Span>::Err(kind),
            },
    {
        let mut total: u32 = 0;
        let mut biggest = Alignment::new(1).unwrap();
        let mut i: usize = 0;
        while i < members.len()
            invariant
                i <= members.len(),
                span(self@, members@.take(i as int)) == Outcome::Ok(
                    (Span { end: total, alignment: biggest@ }),
                ),
            decreases members.len() - i,
        {
            proof {
                assert(members@.take(i + 1).drop_last() =~= members@.take(i as int));
            }
            match self.try_member_placement(total, &members[i]) {
                Ok((bytes, alignment)) => {
                    if alignment.get() > biggest.get() {
                        biggest = alignment;
                    }
                    total = bytes.end;
                },
                Err(kind) => {
                    proof {
                        lemma_span_stops(self@, members@, i + 1);
                    }
                    return Err(kind);
                },
            }
            i += 1;
        }
        proof {
            assert(members@.take(i as int) =~= members@);
        }
        Ok((total, biggest))
    }
}

impl Default for Layouter {
    /// A table without layouts.
    fn default() -> (made: Layouter)
        ensures
            made@ == Seq::<Layout>::empty(),
    {
        Layouter { layouts: Vec::new() }
    }
}

} // verus!

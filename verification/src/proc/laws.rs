//! What holds of the layout rules, whatever the types.

use crate::arena::Handle;
use crate::ir::{Constant, StructMember, Type};
use crate::proc::layouter::{Layouter, TypeLayout};
use crate::proc::rules::{
    fails_with, is_table_of, layout_of, layoutable, round_up_spec, span, stops_at, Layout,
    LayoutError, Outcome,
};
use vstd::prelude::*;

verus! {

/// A rounded offset fits in 32 bits: it is the offset itself, or the offset
/// with the bits of the alignment set.
pub proof fn lemma_round_up_bits(alignment: u32, offset: u32)
    ensures
        round_up_spec(alignment, offset) == if offset & alignment == 0 {
            offset
        } else {
            offset | alignment
        },
        round_up_spec(alignment, offset) <= u32::MAX,
{
    assert(offset + alignment - (offset & alignment) == (offset | alignment)) by (bit_vector);
}

/// Rounding never moves an offset back, and rounding a rounded offset leaves
/// it where it is. This holds for every alignment, a power of two or not.
pub proof fn lemma_round_up_idempotent(alignment: u32, offset: u32)
    ensures
        round_up_spec(alignment, offset) >= offset,
        round_up_spec(alignment, offset) <= u32::MAX,
        round_up_spec(alignment, round_up_spec(alignment, offset) as u32) == round_up_spec(
            alignment,
            offset,
        ),
{
    lemma_round_up_bits(alignment, offset);
    lemma_round_up_bits(alignment, round_up_spec(alignment, offset) as u32);
    assert((offset | alignment) >= offset) by (bit_vector);
    assert(((offset | alignment) | alignment) == (offset | alignment)) by (bit_vector);
}

/// For an alignment that is a power of two, rounding keeps every offset: the
/// bits that an offset has in common with a single bit are none or that bit.
pub proof fn lemma_round_up_power_of_two(exponent: u32, offset: u32)
    requires
        exponent < 32,
    ensures
        round_up_spec(1u32 << exponent, offset) == offset,
{
    let alignment = 1u32 << exponent;
    assert(offset & alignment == 0 || offset & alignment == alignment) by (bit_vector)
        requires
            alignment == 1u32 << exponent,
            exponent < 32,
    ;
}

/// Members that cannot be placed keep a struct from being placed, whatever
/// follows them.
pub proof fn lemma_span_stops(table: Seq<Layout>, members: Seq<StructMember>, n: int)
    requires
        0 <= n <= members.len(),
        span(table, members.take(n)) is Err,
    ensures
        span(table, members) == span(table, members.take(n)),
    decreases members.len() - n,
{
    if n < members.len() {
        assert(members.take(n + 1).drop_last() =~= members.take(n));
        lemma_span_stops(table, members, n + 1);
    } else {
        assert(members.take(n) =~= members);
    }
}

/// The layout table of the first `n` types is the first `n` layouts of the
/// layout table of all of them: types that come later change no layout.
pub proof fn lemma_table_prefix(
    table: Seq<Layout>,
    types: Seq<Type>,
    constants: Seq<Constant>,
    n: int,
)
    requires
        is_table_of(table, types, constants),
        0 <= n <= types.len(),
    ensures
        is_table_of(table.take(n), types.take(n), constants),
{
    assert forall|i: int| 0 <= i < n implies #[trigger] layout_of(
        types.take(n)[i],
        table.take(n).take(i),
        constants,
    ) == Outcome::Ok(table.take(n)[i]) by {
        assert(table.take(n).take(i) =~= table.take(i));
    }
}

/// Types have at most one layout table.
pub proof fn lemma_table_unique(
    first: Seq<Layout>,
    second: Seq<Layout>,
    types: Seq<Type>,
    constants: Seq<Constant>,
)
    requires
        is_table_of(first, types, constants),
        is_table_of(second, types, constants),
    ensures
        first == second,
    decreases types.len(),
{
    if types.len() > 0 {
        let n = types.len() - 1;
        lemma_table_prefix(first, types, constants, n);
        lemma_table_prefix(second, types, constants, n);
        lemma_table_unique(first.take(n), second.take(n), types.take(n), constants);
        // The last layouts are what the rules give to the last type from the
        // same layouts before it.
        assert(layout_of(types[n], first.take(n), constants) == Outcome::Ok(first[n]));
        assert forall|i: int| 0 <= i < first.len() implies first[i] == second[i] by {
            if i < n {
                assert(first.take(n)[i] == second.take(n)[i]);
            }
        }
    }
}

/// Putting the layout that the rules give to the next type behind a layout
/// table gives the layout table of the types with that next one.
pub proof fn lemma_table_grows(
    table: Seq<Layout>,
    types: Seq<Type>,
    constants: Seq<Constant>,
    next: Layout,
)
    requires
        table.len() < types.len(),
        is_table_of(table, types.take(table.len() as int), constants),
        layout_of(types[table.len() as int], table, constants) == Outcome::Ok(next),
    ensures
        is_table_of(table.push(next), types.take(table.len() as int + 1), constants),
{
    let n = table.len() as int;
    let grown = table.push(next);
    assert forall|i: int| 0 <= i < n + 1 implies #[trigger] layout_of(
        types.take(n + 1)[i],
        grown.take(i),
        constants,
    ) == Outcome::Ok(grown[i]) by {
        if i < n {
            assert(grown.take(i) =~= table.take(i));
        } else {
            assert(grown.take(i) =~= table);
        }
    }
}

/// Types whose layout stops at an error have no layout table.
pub proof fn lemma_error_excludes_table(
    types: Seq<Type>,
    constants: Seq<Constant>,
    error: LayoutError,
)
    requires
        fails_with(types, constants, error),
    ensures
        !layoutable(types, constants),
{
    if layoutable(types, constants) {
        let table = choose|table: Seq<Layout>| is_table_of(table, types, constants);
        let before = choose|before: Seq<Layout>| stops_at(before, types, constants, error);
        let n = error.index as int;
        // The table starts with what was laid out before the error, so it
        // has a layout for the type that the rules give none.
        lemma_table_prefix(table, types, constants, n);
        lemma_table_unique(table.take(n), before, types.take(n), constants);
        assert(layout_of(types[n], table.take(n), constants) == Outcome::Ok(table[n]));
    }
}

/// The layout of types stops at no more than one error.
pub proof fn lemma_error_unique(
    types: Seq<Type>,
    constants: Seq<Constant>,
    first: LayoutError,
    second: LayoutError,
)
    requires
        fails_with(types, constants, first),
        fails_with(types, constants, second),
    ensures
        first == second,
{
    let a = choose|before: Seq<Layout>| stops_at(before, types, constants, first);
    let b = choose|before: Seq<Layout>| stops_at(before, types, constants, second);
    let m = first.index as int;
    let n = second.index as int;
    if m < n {
        lemma_table_prefix(b, types.take(n), constants, m);
        assert(types.take(n).take(m) =~= types.take(m));
        lemma_table_unique(b.take(m), a, types.take(m), constants);
        assert(layout_of(types.take(n)[m], b.take(m), constants) == Outcome::Ok(b[m]));
    } else if n < m {
        lemma_table_prefix(a, types.take(m), constants, n);
        assert(types.take(m).take(n) =~= types.take(n));
        lemma_table_unique(a.take(n), b, types.take(n), constants);
        assert(layout_of(types.take(m)[n], a.take(n), constants) == Outcome::Ok(a[n]));
    } else {
        lemma_table_unique(a, b, types.take(m), constants);
    }
}

/// What is found at a handle in the layout table of `types` is the layout
/// that the rules give to the type at the handle, from the layouts of the
/// types before it; and whenever it is looked up, the same layout is found.
pub proof fn lemma_resolve_consistent(
    layouter: Layouter,
    types: Seq<Type>,
    constants: Seq<Constant>,
    handle: Handle<Type>,
    found: TypeLayout,
    again: TypeLayout,
)
    requires
        is_table_of(layouter@, types, constants),
        handle@ < types.len(),
        found@ == layouter@[handle@ as int],
        again@ == layouter@[handle@ as int],
    ensures
        handle@ < layouter@.len(),
        layout_of(types[handle@ as int], layouter@.take(handle@ as int), constants)
            == Outcome::Ok(found@),
        again == found,
{
    TypeLayout::lemma_view_is_injective(found, again);
}

} // verus!

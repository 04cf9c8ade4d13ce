use layouter::proc::{Alignment, LayoutError, LayoutErrorKind, Layouter, TypeLayout};
use layouter::{
    Arena, ArraySize, Constant, ConstantInner, Handle, ScalarKind, ScalarValue, StructMember,
    Type, TypeInner, VectorSize,
};

// A small generator of numbers that gives the same run every time.
struct Numbers(u64);

impl Numbers {
    fn next(&mut self) -> u64 {
        self.0 = self.0.wrapping_mul(6364136223846793005).wrapping_add(1442695040888963407);
        self.0 >> 33
    }

    fn below(&mut self, bound: u64) -> u64 {
        self.next() % bound
    }

    fn pick<T: Copy>(&mut self, from: &[T]) -> T {
        from[self.below(from.len() as u64) as usize]
    }
}

fn type_handles(count: usize) -> Vec<Handle<Type>> {
    let mut arena = Arena::new();
    (0..count).map(|_| arena.append(Type { inner: TypeInner::Image })).collect()
}

fn constant_handles(count: usize) -> Vec<Handle<Constant>> {
    let mut arena = Arena::new();
    (0..count)
        .map(|_| {
            arena.append(Constant {
                inner: ConstantInner::Scalar { width: 4, value: ScalarValue::Bool(false) },
            })
        })
        .collect()
}

// The rules once more, in 64 bits and step by step.
fn rounded(alignment: u64, offset: u64) -> u64 {
    if offset & alignment == 0 {
        offset
    } else {
        offset + alignment - (offset & alignment)
    }
}

fn lanes(size: VectorSize) -> u64 {
    match size {
        VectorSize::Bi => 2,
        VectorSize::Tri => 3,
        VectorSize::Quad => 4,
    }
}

fn factor(size: VectorSize) -> u64 {
    if lanes(size) >= 3 {
        4
    } else {
        2
    }
}

fn expected_layout(
    ty: &Type,
    earlier: &[(u64, u64)],
    constants: &[Constant],
) -> Result<(u64, u64), LayoutErrorKind> {
    let limit = u32::MAX as u64;
    match &ty.inner {
        TypeInner::Scalar { width, .. } => {
            if *width == 0 {
                return Err(LayoutErrorKind::ZeroWidth);
            }
            Ok((*width as u64, *width as u64))
        }
        TypeInner::Vector { size, width, .. } => {
            if *width == 0 {
                return Err(LayoutErrorKind::ZeroWidth);
            }
            Ok((lanes(*size) * *width as u64, factor(*size) * *width as u64))
        }
        TypeInner::Matrix { columns, rows, width } => {
            if *width == 0 {
                return Err(LayoutErrorKind::ZeroWidth);
            }
            Ok((lanes(*columns) * lanes(*rows) * *width as u64, factor(*rows) * *width as u64))
        }
        TypeInner::Pointer | TypeInner::ValuePointer => Ok((4, 1)),
        TypeInner::Image | TypeInner::Sampler => Ok((0, 1)),
        TypeInner::Array { base, size, stride } => {
            let count = match size {
                ArraySize::Dynamic => 0,
                ArraySize::Constant(handle) => match constants.get(handle.index()) {
                    None => return Err(LayoutErrorKind::UnknownConstant),
                    Some(constant) => match &constant.inner {
                        ConstantInner::Scalar { value: ScalarValue::Uint(value), .. } => {
                            *value & limit
                        }
                        ConstantInner::Scalar { value: ScalarValue::Sint(value), .. } => {
                            (*value as u64) & limit
                        }
                        _ => return Err(LayoutErrorKind::NonIntegerConstant),
                    },
                },
            };
            let stride = match stride {
                Some(given) => given.get() as u64,
                None => match earlier.get(base.index()) {
                    None => return Err(LayoutErrorKind::UndefinedType),
                    Some((size, alignment)) => rounded(*alignment, *size),
                },
            };
            if stride == 0 {
                return Err(LayoutErrorKind::ZeroStride);
            }
            if count * stride > limit {
                return Err(LayoutErrorKind::Overflow);
            }
            Ok((count * stride, stride))
        }
        TypeInner::Struct { members, .. } => {
            let mut total = 0;
            let mut biggest = 1;
            for member in members {
                let (size, alignment) = match earlier.get(member.ty.index()) {
                    None => return Err(LayoutErrorKind::UndefinedType),
                    Some(layout) => *layout,
                };
                let alignment = member.align.map_or(alignment, |given| given.get() as u64);
                let size = member.size.map_or(size, |given| given as u64);
                total = rounded(alignment, total) + size;
                if total > limit {
                    return Err(LayoutErrorKind::Overflow);
                }
                biggest = biggest.max(alignment);
            }
            Ok((rounded(biggest, total), biggest))
        }
    }
}

fn expected_table(types: &[Type], constants: &[Constant]) -> Result<Vec<(u64, u64)>, LayoutError> {
    let mut table = Vec::new();
    for (index, ty) in types.iter().enumerate() {
        match expected_layout(ty, &table, constants) {
            Ok(layout) => table.push(layout),
            Err(kind) => return Err(LayoutError { index, kind }),
        }
    }
    Ok(table)
}

fn some_alignment(numbers: &mut Numbers, odd: bool) -> Option<Alignment> {
    if numbers.below(2) == 0 {
        return None;
    }
    let raw = if odd {
        numbers.pick(&[1u32, 2, 3, 4, 6, 8, 12, 16, 24, 32, 0x8000_0000, u32::MAX])
    } else {
        numbers.pick(&[1u32, 2, 4, 8, 16, 32, 64])
    };
    Alignment::new(raw)
}

fn some_width(numbers: &mut Numbers, odd: bool) -> u8 {
    if odd {
        numbers.pick(&[0u8, 1, 2, 3, 4, 8, 16, 64, 100, 255])
    } else {
        numbers.pick(&[1u8, 2, 4, 8])
    }
}

fn some_count(numbers: &mut Numbers) -> VectorSize {
    numbers.pick(&[VectorSize::Bi, VectorSize::Tri, VectorSize::Quad])
}

// A type for position `at`. With `odd`, it may be one that has no layout.
fn some_type(
    numbers: &mut Numbers,
    at: usize,
    types: &[Handle<Type>],
    constants: &[Handle<Constant>],
    held: usize,
    odd: bool,
) -> Type {
    let earlier = |numbers: &mut Numbers| {
        if at == 0 || (odd && numbers.below(8) == 0) {
            types[numbers.below(types.len() as u64) as usize]
        } else {
            types[numbers.below(at as u64) as usize]
        }
    };
    let kind = ScalarKind::Float;
    let inner = match numbers.below(10) {
        0 => TypeInner::Scalar { kind, width: some_width(numbers, odd) },
        1 => TypeInner::Vector { size: some_count(numbers), kind, width: some_width(numbers, odd) },
        2 => TypeInner::Matrix {
            columns: some_count(numbers),
            rows: some_count(numbers),
            width: some_width(numbers, odd),
        },
        3 if numbers.below(2) == 0 => TypeInner::Pointer,
        3 => TypeInner::ValuePointer,
        4 if numbers.below(2) == 0 => TypeInner::Image,
        4 => TypeInner::Sampler,
        5 | 6 => {
            let size = if numbers.below(3) == 0 || held == 0 {
                ArraySize::Dynamic
            } else if odd {
                ArraySize::Constant(constants[numbers.below(constants.len() as u64) as usize])
            } else {
                // the first half of the constants are small integers
                ArraySize::Constant(constants[numbers.below((held / 2).max(1) as u64) as usize])
            };
            TypeInner::Array { base: earlier(numbers), size, stride: some_alignment(numbers, odd) }
        }
        _ => {
            let members = (0..numbers.below(5))
                .map(|_| StructMember {
                    ty: earlier(numbers),
                    align: some_alignment(numbers, odd),
                    size: match numbers.below(4) {
                        0 => Some(numbers.pick(&[0u32, 1, 4, 5, 16, 100])),
                        1 if odd => Some(numbers.pick(&[0x7FFF_FFFF, u32::MAX])),
                        _ => None,
                    },
                })
                .collect();
            TypeInner::Struct { block: numbers.below(2) == 0, members }
        }
    };
    Type { inner }
}

fn some_constants(numbers: &mut Numbers, handles: &[Handle<Constant>]) -> Arena<Constant> {
    let held = numbers.below(handles.len() as u64) as usize;
    let mut arena = Arena::new();
    for at in 0..held {
        let value = if at < (held / 2).max(1) {
            if numbers.below(2) == 0 {
                ScalarValue::Uint(numbers.below(40))
            } else {
                ScalarValue::Sint(numbers.below(40) as i64)
            }
        } else {
            match numbers.below(6) {
                0 => ScalarValue::Uint(numbers.next() << 20),
                1 => ScalarValue::Sint(-(numbers.below(1 << 34) as i64)),
                2 => ScalarValue::Sint(numbers.next() as i64),
                3 => ScalarValue::Bool(true),
                4 => ScalarValue::Float(numbers.next()),
                _ => ScalarValue::Uint(numbers.below(1 << 33)),
            }
        };
        let inner = if at >= (held / 2).max(1) && numbers.below(7) == 0 {
            ConstantInner::Composite { ty: type_handles(1)[0], components: vec![handles[0]] }
        } else {
            ConstantInner::Scalar { width: 4, value }
        };
        arena.append(Constant { inner });
    }
    arena
}

fn compare(seed: u64, odd: bool) -> bool {
    let mut numbers = Numbers(seed);
    let type_handles = type_handles(16);
    let constant_handles = constant_handles(8);
    let constants = some_constants(&mut numbers, &constant_handles);
    let mut types = Arena::new();
    for at in 0..numbers.below(14) as usize {
        let ty =
            some_type(&mut numbers, at, &type_handles, &constant_handles, constants.len(), odd);
        types.append(ty);
    }

    let expected = expected_table(types.as_slice(), constants.as_slice());
    let mut layouter = Layouter::default();
    let done = layouter.try_initialize(&types, &constants);
    let filled = match &expected {
        Ok(table) => {
            assert_eq!(done, Ok(()), "seed {seed}");
            table.clone()
        }
        Err(error) => {
            assert_eq!(done, Err(*error), "seed {seed}");
            assert_eq!(Layouter::try_new(&types, &constants).err(), Some(*error), "seed {seed}");
            expected_table(&types.as_slice()[..error.index], constants.as_slice()).unwrap()
        }
    };
    for (at, handle) in type_handles.iter().enumerate() {
        let found = layouter.try_resolve(*handle);
        let wanted = filled.get(at).map(|(size, alignment)| TypeLayout {
            size: *size as u32,
            alignment: Alignment::new(*alignment as u32).unwrap(),
        });
        assert_eq!(found, wanted, "seed {seed}, type {at}");
        if let Some(wanted) = wanted {
            assert_eq!(layouter.resolve(*handle), wanted, "seed {seed}, type {at}");
        }
    }
    if expected.is_ok() {
        let plain = Layouter::new(&types, &constants);
        for handle in type_handles.iter().take(types.len()) {
            assert_eq!(plain.resolve(*handle), layouter.resolve(*handle), "seed {seed}");
        }
    }
    expected.is_ok()
}

#[test]
fn tables_of_ordinary_types_follow_the_rules() {
    let mut laid_out = 0;
    for seed in 0..3000 {
        if compare(seed, false) {
            laid_out += 1;
        }
    }
    // most ordinary types have a layout, some do not: an array without a
    // stride may have elements of no bytes
    assert!(laid_out > 1500, "{laid_out}");
    assert!(laid_out < 3000, "{laid_out}");
}

#[test]
fn tables_of_odd_types_follow_the_rules() {
    let mut laid_out = 0;
    let mut refused = 0;
    for seed in 0..6000 {
        if compare(seed ^ 0x5DEE_CE66, true) {
            laid_out += 1;
        } else {
            refused += 1;
        }
    }
    assert!(laid_out > 500, "{laid_out}");
    assert!(refused > 500, "{refused}");
}

#[test]
fn placements_follow_the_rules() {
    let mut numbers = Numbers(7);
    let handles = type_handles(6);
    let mut types = Arena::new();
    for &width in &[1u8, 4, 8] {
        types.append(Type { inner: TypeInner::Scalar { kind: ScalarKind::Sint, width } });
    }
    types.append(Type {
        inner: TypeInner::Vector { size: VectorSize::Tri, kind: ScalarKind::Float, width: 4 },
    });
    let layouter = Layouter::new(&types, &Arena::new());
    let table = [(1u64, 1u64), (4, 4), (8, 8), (12, 16)];
    let mut placed = 0;
    for _ in 0..20000 {
        let at = numbers.below(handles.len() as u64) as usize;
        let member = StructMember {
            ty: handles[at],
            align: some_alignment(&mut numbers, true),
            size: match numbers.below(3) {
                0 => Some(numbers.pick(&[0u32, 3, 64, 0xFFFF_FF00, u32::MAX])),
                _ => None,
            },
        };
        let offset = match numbers.below(3) {
            0 => numbers.below(64) as u32,
            1 => u32::MAX - numbers.below(64) as u32,
            _ => numbers.next() as u32,
        };
        let wanted = match table.get(at) {
            None => Err(LayoutErrorKind::UndefinedType),
            Some((size, alignment)) => {
                let alignment = member.align.map_or(*alignment, |given| given.get() as u64);
                let size = member.size.map_or(*size, |given| given as u64);
                let start = rounded(alignment, offset as u64);
                if start + size > u32::MAX as u64 {
                    Err(LayoutErrorKind::Overflow)
                } else {
                    Ok((
                        start as u32..(start + size) as u32,
                        Alignment::new(alignment as u32).unwrap(),
                    ))
                }
            }
        };
        assert_eq!(layouter.try_member_placement(offset, &member), wanted);
        if let Ok(wanted) = wanted {
            assert_eq!(layouter.member_placement(offset, &member), wanted);
            placed += 1;
        }
    }
    assert!(placed > 5000, "{placed}");
}

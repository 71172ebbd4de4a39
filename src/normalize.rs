use vstd::prelude::*;

verus! {

/// The type of a loaded column, as far as normalization cares: each numeric
/// width on its own, anything else as `Other`.
#[derive(Clone, Copy, Debug, PartialEq, Eq, Structural)]
pub enum ColumnType {
    Int8,
    Int16,
    Int32,
    Int64,
    UInt8,
    UInt16,
    UInt32,
    UInt64,
    Float32,
    Float64,
    Other,
}

/// The canonical type of a column after loading: every integer type becomes
/// `Int64`, every float type `Float64`, anything else is left alone.
pub open spec fn canonical(t: ColumnType) -> ColumnType {
    match t {
        ColumnType::Int8 | ColumnType::Int16 | ColumnType::Int32 | ColumnType::UInt8
        | ColumnType::UInt16 | ColumnType::UInt32 | ColumnType::UInt64 => ColumnType::Int64,
        ColumnType::Float32 => ColumnType::Float64,
        _ => t,
    }
}

/// The column types with every one brought to its canonical type.
pub open spec fn normalized(s: Seq<ColumnType>) -> Seq<ColumnType> {
    s.map_values(|t: ColumnType| canonical(t))
}

/// Column `i` needs a cast to become canonical.
pub open spec fn needs_cast(s: Seq<ColumnType>, i: int) -> bool {
    canonical(s[i]) != s[i]
}

/// `casts` lists, in ascending column order, exactly the columns of `s`
/// whose type is not canonical, each with its canonical type.
pub open spec fn is_cast_plan(s: Seq<ColumnType>, casts: Seq<(usize, ColumnType)>) -> bool {
    &&& forall|k: int| 0 <= k < casts.len() ==> {
        let i = (#[trigger] casts[k]).0 as int;
        0 <= i < s.len() && needs_cast(s, i) && casts[k].1 == canonical(s[i])
    }
    &&& forall|k: int, l: int| 0 <= k < l < casts.len() ==> (#[trigger] casts[k]).0 < (#[trigger] casts[l]).0
    &&& forall|i: int| 0 <= i < s.len() && #[trigger] needs_cast(s, i) ==>
        exists|k: int| 0 <= k < casts.len() && (#[trigger] casts[k]).0 == i
}

/// `s` with the casts of `casts` applied, in order.
pub open spec fn apply_casts(s: Seq<ColumnType>, casts: Seq<(usize, ColumnType)>) -> Seq<ColumnType>
    decreases casts.len(),
{
    if casts.len() == 0 {
        s
    } else {
        let c = casts.last();
        apply_casts(s, casts.drop_last()).update(c.0 as int, c.1)
    }
}

/// The canonical type of `t`.
pub fn canonical_dtype(t: ColumnType) -> (r: ColumnType)
    ensures
        r == canonical(t),
{
    match t {
        ColumnType::Int8 | ColumnType::Int16 | ColumnType::Int32 | ColumnType::UInt8
        | ColumnType::UInt16 | ColumnType::UInt32 | ColumnType::UInt64 => ColumnType::Int64,
        ColumnType::Float32 => ColumnType::Float64,
        _ => t,
    }
}

/// The casts that bring every column to its canonical type.
pub fn numeric_casts(types: &Vec<ColumnType>) -> (r: Vec<(usize, ColumnType)>)
    ensures
        is_cast_plan(types@, r@),
{
    let ghost s = types@;
    let mut casts: Vec<(usize, ColumnType)> = Vec::new();
    let mut i: usize = 0;
    while i < types.len()
        invariant
            s == types@,
            i <= s.len(),
            forall|k: int| 0 <= k < casts@.len() ==> {
                let c = (#[trigger] casts@[k]).0 as int;
                0 <= c < i && needs_cast(s, c) && casts@[k].1 == canonical(s[c])
            },
            forall|k: int, l: int| 0 <= k < l < casts@.len() ==> (#[trigger] casts@[k]).0 < (#[trigger] casts@[l]).0,
            forall|c: int| 0 <= c < i && #[trigger] needs_cast(s, c) ==>
                exists|k: int| 0 <= k < casts@.len() && (#[trigger] casts@[k]).0 == c,
        decreases s.len() - i,
    {
        let t = types[i];
        let target = canonical_dtype(t);
        if target != t {
            let ghost old_casts = casts@;
            casts.push((i, target));
            proof {
                assert(casts@[old_casts.len() as int].0 == i);
                assert forall|c: int| 0 <= c < i + 1 && #[trigger] needs_cast(s, c) implies
                    exists|k: int| 0 <= k < casts@.len() && (#[trigger] casts@[k]).0 == c by {
                    if c < i {
                        let k = choose|k: int| 0 <= k < old_casts.len() && (#[trigger] old_casts[k]).0 == c;
                        assert(casts@[k] == old_casts[k]);
                    } else {
                        assert(casts@[old_casts.len() as int].0 == c);
                    }
                }
            }
        }
        i = i + 1;
    }
    casts
}

proof fn lemma_apply_prefix(s: Seq<ColumnType>, casts: Seq<(usize, ColumnType)>, n: int, i: int)
    requires
        0 <= n <= casts.len(),
        0 <= i < s.len(),
        is_cast_plan(s, casts),
    ensures
        apply_casts(s, casts.subrange(0, n)).len() == s.len(),
        apply_casts(s, casts.subrange(0, n))[i] == if exists|k: int| 0 <= k < n && (#[trigger] casts[k]).0 == i {
            canonical(s[i])
        } else {
            s[i]
        },
    decreases n,
{
    let p = casts.subrange(0, n);
    if n > 0 {
        assert(p.drop_last() =~= casts.subrange(0, n - 1));
        lemma_apply_prefix(s, casts, n - 1, i);
        let c = casts[n - 1];
        if c.0 as int == i {
            assert(casts[n - 1].0 == i);
        } else if exists|k: int| 0 <= k < n && (#[trigger] casts[k]).0 == i {
            let k = choose|k: int| 0 <= k < n && (#[trigger] casts[k]).0 == i;
            assert(k < n - 1);
        }
    }
}

/// Carrying out a cast plan, one cast after another, yields exactly the
/// normalized column types.
pub proof fn lemma_cast_plan_normalizes(s: Seq<ColumnType>, casts: Seq<(usize, ColumnType)>)
    requires
        is_cast_plan(s, casts),
    ensures
        apply_casts(s, casts) == normalized(s),
{
    assert(casts.subrange(0, casts.len() as int) =~= casts);
    let a = apply_casts(s, casts);
    assert forall|i: int| 0 <= i < s.len() implies a[i] == normalized(s)[i] by {
        lemma_apply_prefix(s, casts, casts.len() as int, i);
        if needs_cast(s, i) {
            let k = choose|k: int| 0 <= k < casts.len() && (#[trigger] casts[k]).0 == i;
        }
    }
    if s.len() > 0 {
        lemma_apply_prefix(s, casts, casts.len() as int, 0);
    } else if casts.len() > 0 {
        assert(0 <= casts[0].0 < s.len());
    }
    assert(a =~= normalized(s));
}

/// Normalizing is idempotent: normalizing normalized column types changes
/// nothing, and they call for no cast at all.
pub proof fn lemma_normalize_idempotent(s: Seq<ColumnType>)
    ensures
        normalized(normalized(s)) == normalized(s),
        forall|casts: Seq<(usize, ColumnType)>| is_cast_plan(normalized(s), casts) ==> casts.len() == 0,
{
    assert(normalized(normalized(s)) =~= normalized(s));
    assert forall|casts: Seq<(usize, ColumnType)>| is_cast_plan(normalized(s), casts) implies casts.len() == 0 by {
        if casts.len() > 0 {
            let i = casts[0].0 as int;
            assert(needs_cast(normalized(s), i));
        }
    }
}

} // verus!

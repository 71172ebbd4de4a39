use vstd::prelude::*;
use polars::prelude::{DataFrame, DataType, PolarsError};
use crate::error::ExplorerError;
use crate::normalize::{apply_casts, canonical, is_cast_plan, lemma_cast_plan_normalizes, needs_cast, normalized, numeric_casts, ColumnType};

verus! {

/// polars' data frame, carried through unopened.
#[verifier::external_type_specification]
#[verifier::external_body]
pub struct ExDataFrame(DataFrame);

/// polars' column type. No signature here uses it, but Verus needs it
/// declared: the data frame's indexing impls return it.
#[verifier::external_type_specification]
#[verifier::external_body]
pub struct ExSeries(polars::prelude::Series);

/// polars' error type.
#[verifier::external_type_specification]
#[verifier::external_body]
pub struct ExPolarsError(PolarsError);

/// Relies on polars' `Display` for `PolarsError`: its message.
#[verifier::external_body]
fn polars_message(e: &PolarsError) -> String {
    e.to_string()
}

/// The codec rejected the data; its message is kept.
pub fn codec_error(e: &PolarsError) -> (r: ExplorerError)
    ensures
        r is Decode,
{
    ExplorerError::Decode(polars_message(e))
}

/// The types of a frame's columns, in column order.
pub uninterp spec fn frame_types(df: DataFrame) -> Seq<ColumnType>;

/// The names of a frame's columns, in column order.
pub uninterp spec fn frame_names(df: DataFrame) -> Seq<Seq<char>>;

/// What the text writers need to know of a frame's columns, in column order.
pub uninterp spec fn frame_kinds(df: DataFrame) -> Seq<ColumnKind>;

/// The type of a column as the text writers see it.
#[derive(Clone, Copy, Debug, PartialEq, Eq, Structural)]
pub enum ColumnKind {
    Boolean,
    Integer,
    Float,
    Utf8,
    Categorical,
    Date,
    /// A timestamp without a time zone.
    Datetime,
    /// A timestamp with a time zone.
    ZonedDatetime,
    /// Anything else: binary, time, duration, null, nested and the rest.
    Other,
}

/// Relies on polars' `DataFrame::width`: the number of columns.
#[verifier::external_body]
pub(crate) fn column_count(df: &DataFrame) -> (r: usize)
    ensures
        r == frame_types(*df).len() && r == frame_names(*df).len() && r == frame_kinds(*df).len(),
{
    df.width()
}

/// Relies on polars' `Series::name`: the name of the column at `i`.
#[verifier::external_body]
pub(crate) fn column_name_at(df: &DataFrame, i: usize) -> (r: String)
    requires
        i < frame_names(*df).len(),
    ensures
        r@ == frame_names(*df)[i as int],
{
    df.get_columns()[i].name().to_string()
}

/// Relies on polars' `Series::dtype`: the type of the column at `i`.
#[verifier::external_body]
fn column_type_at(df: &DataFrame, i: usize) -> (r: ColumnType)
    requires
        i < frame_types(*df).len(),
    ensures
        r == frame_types(*df)[i as int],
{
    match df.get_columns()[i].dtype() {
        DataType::Int8 => ColumnType::Int8,
        DataType::Int16 => ColumnType::Int16,
        DataType::Int32 => ColumnType::Int32,
        DataType::Int64 => ColumnType::Int64,
        DataType::UInt8 => ColumnType::UInt8,
        DataType::UInt16 => ColumnType::UInt16,
        DataType::UInt32 => ColumnType::UInt32,
        DataType::UInt64 => ColumnType::UInt64,
        DataType::Float32 => ColumnType::Float32,
        DataType::Float64 => ColumnType::Float64,
        _ => ColumnType::Other,
    }
}

/// Relies on polars' `Series::dtype`: the kind of the column at `i`.
#[verifier::external_body]
pub(crate) fn column_kind_at(df: &DataFrame, i: usize) -> (r: ColumnKind)
    requires
        i < frame_kinds(*df).len(),
    ensures
        r == frame_kinds(*df)[i as int],
{
    match df.get_columns()[i].dtype() {
        DataType::Boolean => ColumnKind::Boolean,
        DataType::Int8 | DataType::Int16 | DataType::Int32 | DataType::Int64 => ColumnKind::Integer,
        DataType::UInt8 | DataType::UInt16 | DataType::UInt32 | DataType::UInt64 => ColumnKind::Integer,
        DataType::Float32 | DataType::Float64 => ColumnKind::Float,
        DataType::Utf8 => ColumnKind::Utf8,
        DataType::Categorical(_) => ColumnKind::Categorical,
        DataType::Date => ColumnKind::Date,
        DataType::Datetime(_, None) => ColumnKind::Datetime,
        DataType::Datetime(_, Some(_)) => ColumnKind::ZonedDatetime,
        _ => ColumnKind::Other,
    }
}

/// The 64-bit type a cast goes to.
pub open spec fn cast_target(to_float: bool) -> ColumnType {
    if to_float {
        ColumnType::Float64
    } else {
        ColumnType::Int64
    }
}

/// A numeric column type.
pub open spec fn is_numeric(t: ColumnType) -> bool {
    t != ColumnType::Other
}

/// Relies on polars' `Series::cast` and `DataFrame::replace_at_idx`: the
/// column at `i` replaced by its cast to a 64-bit float or integer, under
/// its own name; the other columns stay as they were. polars' cast between
/// numeric types is not strict (a value out of range becomes null), so it
/// does not fail on a numeric column.
#[verifier::external_body]
fn cast_column_at(df: &mut DataFrame, i: usize, to_float: bool) -> (r: Result<(), PolarsError>)
    requires
        i < frame_types(*old(df)).len(),
    ensures
        is_numeric(frame_types(*old(df))[i as int]) ==> r is Ok,
        r is Ok ==> frame_names(*final(df)) == frame_names(*old(df)),
        r is Ok ==> frame_types(*final(df)) == frame_types(*old(df)).update(i as int, cast_target(to_float)),
        r is Ok ==> frame_kinds(*final(df)).len() == frame_kinds(*old(df)).len(),
        r is Err ==> *final(df) == *old(df),
{
    let target = if to_float { DataType::Float64 } else { DataType::Int64 };
    let cast = df.get_columns()[i].cast(&target)?;
    df.replace_at_idx(i, cast)?;
    Ok(())
}

/// Every column type is already canonical.
pub open spec fn all_canonical(t: Seq<ColumnType>) -> bool {
    forall|i: int| 0 <= i < t.len() ==> canonical(#[trigger] t[i]) == t[i]
}

/// `r` is the outcome of normalizing the frame `d0`: the frame with the
/// same names and the canonical types, and `d0` itself when its types are
/// canonical already.
pub open spec fn normalized_outcome(d0: DataFrame, r: Result<DataFrame, ExplorerError>) -> bool {
    &&& r matches Ok(df)
    &&& frame_names(df) == frame_names(d0)
    &&& frame_types(df) == normalized(frame_types(d0))
    &&& all_canonical(frame_types(df))
    &&& all_canonical(frame_types(d0)) ==> df == d0
}

proof fn lemma_normalized_canonical(t: Seq<ColumnType>)
    ensures
        all_canonical(normalized(t)),
        all_canonical(t) ==> forall|i: int| 0 <= i < t.len() ==> !needs_cast(t, i),
{
}

/// Brings every numeric column of `df` to `Int64` or `Float64`; other
/// columns, and the names, are left alone. A frame that is canonical
/// already is not touched.
pub fn normalize_numeric_dtypes(df: &mut DataFrame)
    ensures
        frame_names(*final(df)) == frame_names(*old(df)),
        frame_types(*final(df)) == normalized(frame_types(*old(df))),
        all_canonical(frame_types(*old(df))) ==> *final(df) == *old(df),
{
    let ghost d0 = *df;
    let ghost t0 = frame_types(d0);
    let n = column_count(df);
    let mut types: Vec<ColumnType> = Vec::new();
    let mut i: usize = 0;
    while i < n
        invariant
            *df == d0,
            t0 == frame_types(d0),
            d0 == *old(df),
            n == t0.len(),
            i <= n,
            types@ == t0.subrange(0, i as int),
        decreases n - i,
    {
        let t = column_type_at(df, i);
        types.push(t);
        assert(types@ =~= t0.subrange(0, i + 1));
        i = i + 1;
    }
    assert(types@ =~= t0);
    let casts = numeric_casts(&types);
    proof {
        if casts@.len() > 0 {
            let c0 = casts@[0];
            assert(0 <= c0.0 < t0.len() && needs_cast(t0, c0.0 as int));
            assert(!all_canonical(t0));
        }
    }
    let mut k: usize = 0;
    while k < casts.len()
        invariant
            n == t0.len(),
            k <= casts@.len(),
            types@ == t0,
            t0 == frame_types(d0),
            d0 == *old(df),
            is_cast_plan(t0, casts@),
            all_canonical(t0) ==> casts@.len() == 0,
            casts@.len() == 0 ==> *df == d0,
            frame_names(*df) == frame_names(d0),
            frame_types(*df) == apply_casts(t0, casts@.subrange(0, k as int)),
        decreases casts@.len() - k,
    {
        let (c, target) = casts[k];
        proof {
            lemma_apply_len_plan(t0, casts@, k as int);
            lemma_apply_keeps_later(t0, casts@, k as int);
        }
        let r = cast_column_at(df, c, target == ColumnType::Float64);
        proof {
            assert(casts@[k as int].0 == c);
            assert(frame_types(*old(df)) == t0);
            assert(cast_target(target == ColumnType::Float64) == target);
            assert(casts@.subrange(0, k + 1).drop_last() =~= casts@.subrange(0, k as int));
        }
        match r {
            Ok(()) => {},
            Err(_) => {
                assert(false);
            },
        }
        k = k + 1;
    }
    proof {
        assert(casts@.subrange(0, casts@.len() as int) =~= casts@);
        lemma_cast_plan_normalizes(t0, casts@);
        lemma_normalized_canonical(t0);
    }
}

proof fn lemma_apply_len_plan(s: Seq<ColumnType>, casts: Seq<(usize, ColumnType)>, n: int)
    requires
        is_cast_plan(s, casts),
        0 <= n <= casts.len(),
    ensures
        apply_casts(s, casts.subrange(0, n)).len() == s.len(),
    decreases n,
{
    if n > 0 {
        assert(casts.subrange(0, n).drop_last() =~= casts.subrange(0, n - 1));
        lemma_apply_len_plan(s, casts, n - 1);
        assert(0 <= casts[n - 1].0 < s.len());
    }
}

/// A column that no earlier cast of the plan touched still has its
/// original type.
proof fn lemma_apply_keeps_later(s: Seq<ColumnType>, casts: Seq<(usize, ColumnType)>, n: int)
    requires
        is_cast_plan(s, casts),
        0 <= n < casts.len(),
    ensures
        apply_casts(s, casts.subrange(0, n))[casts[n].0 as int] == s[casts[n].0 as int],
    decreases n,
{
    let c = casts[n].0 as int;
    if n > 0 {
        assert(casts.subrange(0, n).drop_last() =~= casts.subrange(0, n - 1));
        assert(casts[n - 1].0 < casts[n].0);
        lemma_apply_len_plan(s, casts, n - 1);
        lemma_apply_keeps_later_at(s, casts, n - 1, c);
    }
}

proof fn lemma_apply_keeps_later_at(s: Seq<ColumnType>, casts: Seq<(usize, ColumnType)>, n: int, c: int)
    requires
        is_cast_plan(s, casts),
        0 <= n < casts.len(),
        0 <= c < s.len(),
        forall|k: int| 0 <= k <= n ==> (#[trigger] casts[k]).0 < c,
    ensures
        apply_casts(s, casts.subrange(0, n + 1))[c] == s[c],
    decreases n,
{
    assert(casts.subrange(0, n + 1).drop_last() =~= casts.subrange(0, n));
    assert(casts[n].0 < c);
    if n > 0 {
        lemma_apply_keeps_later_at(s, casts, n - 1, c);
    } else {
        assert(casts.subrange(0, 0).len() == 0);
    }
    lemma_apply_len_plan(s, casts, n);
}

/// The frame a reader produced, normalized; a reader's failure becomes a
/// decode error.
pub fn finish_reader(read: Result<DataFrame, PolarsError>) -> (r: Result<DataFrame, ExplorerError>)
    ensures
        match read {
            Ok(d0) => normalized_outcome(d0, r),
            Err(_) => r matches Err(ExplorerError::Decode(_)),
        },
{
    match read {
        Ok(df) => {
            let mut df = df;
            let ghost d0 = df;
            proof { lemma_normalized_canonical(frame_types(d0)); }
            normalize_numeric_dtypes(&mut df);
            Ok(df)
        },
        Err(e) => Err(codec_error(&e)),
    }
}

} // verus!

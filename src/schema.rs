use vstd::prelude::*;
use crate::dtype::{dtype_from_str, dtype_named, DType};
use crate::error::ExplorerError;

verus! {

/// An ordered list of named, typed columns. The order of `fields` is the
/// order of the columns in any output.
#[derive(Clone, Debug, PartialEq, Eq)]
pub struct Schema {
    pub fields: Vec<(String, DType)>,
}

/// The columns of a schema as (name, type) pairs.
pub open spec fn fields_view(fields: Seq<(String, DType)>) -> Seq<(Seq<char>, DType)> {
    fields.map_values(|f: (String, DType)| (f.0@, f.1))
}

impl View for Schema {
    type V = Seq<(Seq<char>, DType)>;

    open spec fn view(&self) -> Seq<(Seq<char>, DType)> {
        fields_view(self.fields@)
    }
}

/// Index of the first column called `name`, or -1 when there is none.
pub open spec fn position_of(s: Seq<(Seq<char>, DType)>, name: Seq<char>) -> int
    decreases s.len(),
{
    if s.len() == 0 {
        -1
    } else {
        let p = position_of(s.drop_last(), name);
        if p >= 0 {
            p
        } else if s.last().0 == name {
            s.len() - 1
        } else {
            -1
        }
    }
}

/// Adds a column with ordered-map semantics: an existing column of that
/// name keeps its place and takes the new type; otherwise the column is
/// appended.
pub open spec fn with_column(s: Seq<(Seq<char>, DType)>, name: Seq<char>, d: DType) -> Seq<(Seq<char>, DType)> {
    let p = position_of(s, name);
    if p >= 0 {
        s.update(p, (name, d))
    } else {
        s.push((name, d))
    }
}

/// The schema that a list of (name, type) declarations describes: each name
/// stands where it first occurs and has the type it was given last.
pub open spec fn resolved(decls: Seq<(Seq<char>, DType)>) -> Seq<(Seq<char>, DType)>
    decreases decls.len(),
{
    if decls.len() == 0 {
        Seq::empty()
    } else {
        with_column(resolved(decls.drop_last()), decls.last().0, decls.last().1)
    }
}

/// No two columns share a name.
pub open spec fn unique_names(s: Seq<(Seq<char>, DType)>) -> bool {
    forall|i: int, j: int| 0 <= i < j < s.len() ==> (#[trigger] s[i]).0 != (#[trigger] s[j]).0
}

proof fn lemma_position_of_found(s: Seq<(Seq<char>, DType)>, name: Seq<char>)
    ensures
        position_of(s, name) >= 0 ==> position_of(s, name) < s.len() && s[position_of(s, name)].0 == name,
        position_of(s, name) < 0 ==> forall|j: int| 0 <= j < s.len() ==> s[j].0 != name,
    decreases s.len(),
{
    if s.len() > 0 {
        let d = s.drop_last();
        lemma_position_of_found(d, name);
        assert forall|j: int| 0 <= j < d.len() implies d[j] == s[j] by {}
    }
}

/// A resolved schema never repeats a name.
pub proof fn lemma_resolved_unique(decls: Seq<(Seq<char>, DType)>)
    ensures
        unique_names(resolved(decls)),
    decreases decls.len(),
{
    if decls.len() > 0 {
        let prev = resolved(decls.drop_last());
        let name = decls.last().0;
        lemma_resolved_unique(decls.drop_last());
        lemma_position_of_found(prev, name);
        let next = resolved(decls);
        let p = position_of(prev, name);
        if p >= 0 {
            assert forall|i: int, j: int| 0 <= i < j < next.len() implies (#[trigger] next[i]).0 != (#[trigger] next[j]).0 by {
                assert(next[i].0 == prev[i].0 && next[j].0 == prev[j].0);
            }
        } else {
            assert forall|i: int, j: int| 0 <= i < j < next.len() implies (#[trigger] next[i]).0 != (#[trigger] next[j]).0 by {
                if j == prev.len() {
                    assert(next[i] == prev[i]);
                } else {
                    assert(next[i] == prev[i] && next[j] == prev[j]);
                }
            }
        }
    }
}

/// The user's (column name, type name) pairs as character sequences.
pub open spec fn pairs_view(pairs: Seq<(&str, &str)>) -> Seq<(Seq<char>, Seq<char>)> {
    pairs.map_values(|p: (&str, &str)| (p.0@, p.1@))
}

/// Every type name in the pairs is known.
pub open spec fn all_named(pairs: Seq<(Seq<char>, Seq<char>)>) -> bool {
    forall|i: int| 0 <= i < pairs.len() ==> (#[trigger] dtype_named(pairs[i].1)).is_some()
}

/// The pairs with each type name replaced by the type it denotes.
pub open spec fn typed(pairs: Seq<(Seq<char>, Seq<char>)>) -> Seq<(Seq<char>, DType)> {
    pairs.map_values(|p: (Seq<char>, Seq<char>)| (p.0, dtype_named(p.1).unwrap()))
}

proof fn lemma_position_of(s: Seq<(Seq<char>, DType)>, name: Seq<char>, i: int)
    requires
        0 <= i <= s.len(),
        forall|j: int| 0 <= j < i ==> s[j].0 != name,
        i < s.len() ==> s[i].0 == name,
    ensures
        position_of(s, name) == if i < s.len() { i } else { -1 },
    decreases s.len(),
{
    if s.len() > 0 {
        let d = s.drop_last();
        if i < s.len() - 1 {
            lemma_position_of(d, name, i);
        } else {
            assert forall|j: int| 0 <= j < d.len() implies d[j].0 != name by {
                assert(d[j] == s[j]);
            }
            lemma_position_of(d, name, d.len() as int);
        }
    }
}

/// Index of the first field called `name`.
fn find_column(fields: &Vec<(String, DType)>, name: &String) -> (r: Option<usize>)
    ensures
        match r {
            Some(i) => i < fields@.len() && i as int == position_of(fields_view(fields@), name@),
            None => position_of(fields_view(fields@), name@) == -1,
        },
{
    let ghost s = fields_view(fields@);
    let mut i: usize = 0;
    while i < fields.len()
        invariant
            s == fields_view(fields@),
            i <= fields@.len(),
            forall|j: int| 0 <= j < i ==> s[j].0 != name@,
        decreases fields@.len() - i,
    {
        if fields[i].0 == *name {
            proof { lemma_position_of(s, name@, i as int); }
            return Some(i);
        }
        i = i + 1;
    }
    proof { lemma_position_of(s, name@, s.len() as int); }
    None
}

/// Builds a schema from (column name, type name) pairs.
///
/// A name given twice keeps the position of its first occurrence and the
/// type of its last. The first unknown type name fails the whole call and
/// is carried in the error.
pub fn schema_from_dtypes_pairs(dtypes: Vec<(&str, &str)>) -> (r: Result<Schema, ExplorerError>)
    ensures
        match r {
            Ok(s) => all_named(pairs_view(dtypes@)) && s@ == resolved(typed(pairs_view(dtypes@)))
                && unique_names(s@),
            Err(e) => !all_named(pairs_view(dtypes@)) && exists|i: int|
                0 <= i < dtypes@.len() && #[trigger] dtype_named(dtypes@[i].1@).is_none()
                    && (forall|j: int| 0 <= j < i ==> dtype_named(dtypes@[j].1@).is_some())
                    && (e matches ExplorerError::UnsupportedOption(v) && v@ == dtypes@[i].1@),
        },
{
    let ghost pv = pairs_view(dtypes@);
    let mut fields: Vec<(String, DType)> = Vec::new();
    let mut i: usize = 0;
    while i < dtypes.len()
        invariant
            pv == pairs_view(dtypes@),
            i <= dtypes@.len(),
            forall|j: int| 0 <= j < i ==> dtype_named(dtypes@[j].1@).is_some(),
            fields_view(fields@) == resolved(typed(pv.subrange(0, i as int))),
        decreases dtypes@.len() - i,
    {
        let (name, tname) = dtypes[i];
        let d = match dtype_from_str(tname) {
            Ok(d) => d,
            Err(e) => {
                assert(pv[i as int].1 == dtypes@[i as int].1@);
                return Err(e);
            },
        };
        let name = String::from_str(name);
        let ghost before = fields_view(fields@);
        proof {
            let t = typed(pv.subrange(0, i + 1));
            assert(t.drop_last() =~= typed(pv.subrange(0, i as int)));
            assert(t.last() == (name@, d));
        }
        match find_column(&fields, &name) {
            Some(p) => {
                fields.set(p, (name, d));
                assert(fields_view(fields@) =~= before.update(p as int, (name@, d)));
            },
            None => {
                fields.push((name, d));
                assert(fields_view(fields@) =~= before.push((name@, d)));
            },
        }
        i = i + 1;
    }
    proof {
        assert(pv.subrange(0, dtypes@.len() as int) =~= pv);
        lemma_resolved_unique(typed(pv));
    }
    Ok(Schema { fields })
}

} // verus!

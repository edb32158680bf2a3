use vstd::prelude::*;
use crate::array::{ArrayImpl, Scalar};

verus! {

/// The entries of `s` whose flag in `sel` is set, in order.
pub open spec fn select<A>(s: Seq<A>, sel: Seq<bool>) -> Seq<A>
    decreases s.len(),
{
    if s.len() == 0 || sel.len() == 0 {
        Seq::empty()
    } else {
        let rest = select(s.drop_last(), sel.drop_last());
        if sel.last() {
            rest.push(s.last())
        } else {
            rest
        }
    }
}

proof fn lemma_select_step<A>(s: Seq<A>, sel: Seq<bool>, i: int)
    requires
        0 <= i < s.len(),
        s.len() == sel.len(),
    ensures
        select(s.take(i + 1), sel.take(i + 1)) == if sel[i] {
            select(s.take(i), sel.take(i)).push(s[i])
        } else {
            select(s.take(i), sel.take(i))
        },
{
    assert(s.take(i + 1).drop_last() =~= s.take(i));
    assert(sel.take(i + 1).drop_last() =~= sel.take(i));
}

proof fn lemma_select_map<A, B>(s: Seq<A>, sel: Seq<bool>, f: spec_fn(A) -> B)
    requires
        s.len() == sel.len(),
    ensures
        select(s.map_values(f), sel) == select(s, sel).map_values(f),
    decreases s.len(),
{
    if s.len() > 0 {
        lemma_select_map(s.drop_last(), sel.drop_last(), f);
        assert(s.map_values(f).drop_last() =~= s.drop_last().map_values(f));
        assert(select(s.map_values(f), sel) =~= select(s, sel).map_values(f));
    } else {
        assert(select(s.map_values(f), sel) =~= select(s, sel).map_values(f));
    }
}

proof fn lemma_select_len<A, B>(s: Seq<A>, t: Seq<B>, sel: Seq<bool>)
    requires
        s.len() == sel.len(),
        t.len() == sel.len(),
    ensures
        select(s, sel).len() == select(t, sel).len(),
    decreases s.len(),
{
    if s.len() > 0 {
        lemma_select_len(s.drop_last(), t.drop_last(), sel.drop_last());
    }
}

/// Filtering two consecutive batches one after the other yields exactly the
/// filtering of their concatenation: the selected rows, in the order they came.
pub proof fn lemma_select_concat<A>(a: Seq<A>, sa: Seq<bool>, b: Seq<A>, sb: Seq<bool>)
    requires
        a.len() == sa.len(),
        b.len() == sb.len(),
    ensures
        select(a + b, sa + sb) == select(a, sa) + select(b, sb),
    decreases b.len(),
{
    if b.len() == 0 {
        assert(a + b =~= a);
        assert(sa + sb =~= sa);
        assert(select(a, sa) + select(b, sb) =~= select(a, sa));
    } else {
        lemma_select_concat(a, sa, b.drop_last(), sb.drop_last());
        assert((a + b).drop_last() =~= a + b.drop_last());
        assert((sa + sb).drop_last() =~= sa + sb.drop_last());
        assert(select(a + b, sa + sb) =~= select(a, sa) + select(b, sb));
    }
}

fn select_ints(v: &Vec<Option<i32>>, sel: &Vec<bool>) -> (r: Vec<Option<i32>>)
    requires
        v@.len() == sel@.len(),
    ensures
        r@ == select(v@, sel@),
{
    let mut out: Vec<Option<i32>> = Vec::new();
    let mut i: usize = 0;
    while i < v.len()
        invariant
            v@.len() == sel@.len(),
            i <= v@.len(),
            out@ == select(v@.take(i as int), sel@.take(i as int)),
        decreases v@.len() - i,
    {
        proof {
            lemma_select_step(v@, sel@, i as int);
        }
        if sel[i] {
            out.push(v[i]);
        }
        i = i + 1;
    }
    assert(v@.take(i as int) =~= v@);
    assert(sel@.take(i as int) =~= sel@);
    out
}

fn select_texts(v: &Vec<Option<String>>, sel: &Vec<bool>) -> (r: Vec<Option<String>>)
    requires
        v@.len() == sel@.len(),
    ensures
        r@ == select(v@, sel@),
{
    let mut out: Vec<Option<String>> = Vec::new();
    let mut i: usize = 0;
    while i < v.len()
        invariant
            v@.len() == sel@.len(),
            i <= v@.len(),
            out@ == select(v@.take(i as int), sel@.take(i as int)),
        decreases v@.len() - i,
    {
        proof {
            lemma_select_step(v@, sel@, i as int);
        }
        if sel[i] {
            let cell = match &v[i] {
                Some(t) => Some(t.clone()),
                None => None,
            };
            out.push(cell);
        }
        i = i + 1;
    }
    assert(v@.take(i as int) =~= v@);
    assert(sel@.take(i as int) =~= sel@);
    out
}

impl ArrayImpl {
    /// The cells whose flag in `sel` is set, in order, in an array of the same kind.
    pub fn filter(&self, sel: &Vec<bool>) -> (r: ArrayImpl)
        requires
            sel@.len() == self.cells().len(),
        ensures
            r.kind() == self.kind(),
            r.cells() == select(self.cells(), sel@),
    {
        match self {
            ArrayImpl::Int32(v) => {
                let r = select_ints(v, sel);
                proof {
                    lemma_select_map(v@, sel@, |x: Option<i32>| match x {
                        Some(i) => Some(Scalar::Int32(i)),
                        None => None,
                    });
                }
                ArrayImpl::Int32(r)
            },
            ArrayImpl::Float64(v) => {
                let r = select_texts(v, sel);
                proof {
                    lemma_select_map(v@, sel@, |x: Option<String>| match x {
                        Some(t) => Some(Scalar::Float64(t@)),
                        None => None,
                    });
                }
                ArrayImpl::Float64(r)
            },
            ArrayImpl::UTF8(v) => {
                let r = select_texts(v, sel);
                proof {
                    lemma_select_map(v@, sel@, |x: Option<String>| match x {
                        Some(t) => Some(Scalar::Utf8(t@)),
                        None => None,
                    });
                }
                ArrayImpl::UTF8(r)
            },
        }
    }
}

/// One batch of rows, column by column; every column has the same length.
#[derive(Debug, PartialEq)]
pub struct DataChunk {
    arrays: Vec<ArrayImpl>,
}

impl DataChunk {
    pub closed spec fn columns(&self) -> Seq<ArrayImpl> {
        self.arrays@
    }

    /// The number of rows: the length of every column (no rows without columns).
    pub open spec fn rows(&self) -> nat {
        if self.columns().len() == 0 {
            0
        } else {
            self.columns()[0].cells().len()
        }
    }

    pub open spec fn wf(&self) -> bool {
        forall|j: int| 0 <= j < self.columns().len() ==> #[trigger] self.columns()[j].cells().len() == self.rows()
    }

    /// A chunk of the given columns; `None` where their lengths differ.
    pub fn from_arrays(arrays: Vec<ArrayImpl>) -> (r: Option<DataChunk>)
        ensures
            r matches Some(c) ==> c.wf() && c.columns() == arrays@,
            r is None <==> exists|j: int|
                0 <= j < arrays@.len() && #[trigger] arrays@[j].cells().len() != arrays@[0].cells().len(),
    {
        let mut j: usize = 0;
        while j < arrays.len()
            invariant
                j <= arrays@.len(),
                forall|k: int| 0 <= k < j ==> #[trigger] arrays@[k].cells().len() == arrays@[0].cells().len(),
            decreases arrays@.len() - j,
        {
            if arrays[j].len() != arrays[0].len() {
                return None;
            }
            j = j + 1;
        }
        Some(DataChunk { arrays })
    }

    /// A chunk of columns that are known to have one length.
    pub(crate) fn from_equal_arrays(arrays: Vec<ArrayImpl>) -> (r: DataChunk)
        requires
            forall|j: int| 0 <= j < arrays@.len() ==> #[trigger] arrays@[j].cells().len() == arrays@[0].cells().len(),
        ensures
            r.wf(),
            r.columns() == arrays@,
    {
        DataChunk { arrays }
    }

    pub fn arrays(&self) -> (r: &Vec<ArrayImpl>)
        ensures
            r@ == self.columns(),
    {
        &self.arrays
    }

    pub fn cardinality(&self) -> (r: usize)
        ensures
            r == self.rows(),
    {
        if self.arrays.len() == 0 {
            0
        } else {
            self.arrays[0].len()
        }
    }
}

/// The rows of `chunk` whose flag in `sel` is set, in order; every column keeps
/// its kind.
pub fn filter_chunk(chunk: &DataChunk, sel: &Vec<bool>) -> (r: DataChunk)
    requires
        chunk.wf(),
        sel@.len() == chunk.rows(),
    ensures
        r.wf(),
        r.columns().len() == chunk.columns().len(),
        forall|j: int|
            0 <= j < chunk.columns().len() ==> (#[trigger] r.columns()[j]).kind() == chunk.columns()[j].kind()
                && r.columns()[j].cells() == select(chunk.columns()[j].cells(), sel@),
{
    let mut out: Vec<ArrayImpl> = Vec::new();
    let mut j: usize = 0;
    while j < chunk.arrays.len()
        invariant
            chunk.wf(),
            sel@.len() == chunk.rows(),
            j <= chunk.arrays@.len(),
            out@.len() == j,
            forall|k: int|
                0 <= k < j ==> (#[trigger] out@[k]).kind() == chunk.arrays@[k].kind() && out@[k].cells()
                    == select(chunk.arrays@[k].cells(), sel@),
        decreases chunk.arrays@.len() - j,
    {
        assert(chunk.arrays@[j as int].cells().len() == chunk.rows());
        let a = chunk.arrays[j].filter(sel);
        out.push(a);
        j = j + 1;
    }
    let r = DataChunk { arrays: out };
    assert forall|k: int| 0 <= k < r.arrays@.len() implies #[trigger] r.arrays@[k].cells().len() == r.rows() by {
        assert(chunk.arrays@[k].cells().len() == chunk.rows());
        assert(chunk.arrays@[0].cells().len() == chunk.rows());
        lemma_select_len(chunk.arrays@[k].cells(), chunk.arrays@[0].cells(), sel@);
    }
    r
}

} // verus!

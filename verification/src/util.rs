//! Helpers shared by the training loops.
use vstd::prelude::*;

verus! {

/// The rows of `data` as sequences.
pub open spec fn rows_of<T>(data: Seq<Vec<T>>) -> Seq<Seq<T>> {
    data.map_values(|row: Vec<T>| row@)
}

/// Every row of `data` has `cols` items.
pub open spec fn rows_uniform<T>(data: Seq<Vec<T>>, cols: nat) -> bool {
    forall|i: int| 0 <= i < data.len() ==> (#[trigger] data[i])@.len() == cols
}

/// Lays the rows of a non-empty table end to end, first row first, for a
/// `rows` x `cols` matrix. Returns `None` when the rows differ in length.
pub fn flatten_rows<T: Copy>(data: &Vec<Vec<T>>) -> (r: Option<(usize, usize, Vec<T>)>)
    requires data@.len() > 0,
    ensures
        r is Some <==> rows_uniform(data@, data@[0]@.len()),
        r matches Some((rows, cols, flat)) ==> {
            &&& rows == data@.len()
            &&& cols == data@[0]@.len()
            &&& flat@ == rows_of(data@).flatten()
            &&& flat@.len() == rows * cols
            &&& forall|i: int, j: int| 0 <= i < rows && 0 <= j < cols
                ==> flat@[i * cols + j] == #[trigger] data@[i]@[j]
        },
{
    let rows = data.len();
    let cols = data[0].len();
    for i in 0..rows
        invariant
            rows == data@.len(),
            cols == data@[0]@.len(),
            forall|j: int| 0 <= j < i ==> (#[trigger] data@[j])@.len() == cols,
    {
        if data[i].len() != cols {
            return None;
        }
    }
    let mut flat: Vec<T> = Vec::new();
    for i in 0..rows
        invariant
            rows == data@.len(),
            cols == data@[0]@.len(),
            rows_uniform(data@, cols as nat),
            flat@ == rows_of(data@).take(i as int).flatten_alt(),
            flat@.len() == i * cols,
    {
        let row = &data[i];
        let ghost before = flat@;
        for j in 0..cols
            invariant
                cols == row@.len(),
                flat@ == before + row@.take(j as int),
        {
            flat.push(row[j]);
            proof {
                assert(row@.take(j as int + 1) =~= row@.take(j as int).push(row@[j as int]));
            }
        }
        proof {
            assert(row@.take(cols as int) =~= row@);
            let s = rows_of(data@);
            assert(s.take(i as int + 1).drop_last() =~= s.take(i as int));
            assert(s.take(i as int + 1).last() == row@);
            assert((i + 1) * cols == i * cols + cols) by (nonlinear_arith);
        }
    }
    proof {
        let s = rows_of(data@);
        assert(s.take(rows as int) =~= s);
        s.lemma_flatten_and_flatten_alt_are_equivalent();
        assert forall|i: int, j: int| 0 <= i < rows && 0 <= j < cols
            implies flat@[i * cols + j] == #[trigger] data@[i]@[j] by {
            lemma_flatten_index(s, cols as nat, i, j);
        }
    }
    Some((rows, cols, flat))
}


/// Flattening rows of `cols` items each gives `rows * cols` items.
pub proof fn lemma_flatten_len<T>(rows: Seq<Seq<T>>, cols: nat)
    requires forall|i: int| 0 <= i < rows.len() ==> (#[trigger] rows[i]).len() == cols,
    ensures rows.flatten().len() == rows.len() * cols,
    decreases rows.len(),
{
    if rows.len() > 0 {
        lemma_flatten_len(rows.drop_first(), cols);
        assert(rows.len() * cols == cols + (rows.len() - 1) * cols) by (nonlinear_arith)
            requires rows.len() > 0;
    }
}

/// Flattening lays rows out one after another: item `c` of row `r` sits at
/// `r * cols + c`.
pub proof fn lemma_flatten_index<T>(rows: Seq<Seq<T>>, cols: nat, r: int, c: int)
    requires
        forall|i: int| 0 <= i < rows.len() ==> (#[trigger] rows[i]).len() == cols,
        0 <= r < rows.len(),
        0 <= c < cols,
    ensures
        0 <= r * cols + c < rows.flatten().len(),
        rows.flatten()[r * cols + c] == rows[r][c],
    decreases rows.len(),
{
    lemma_flatten_len(rows, cols);
    let rest = rows.drop_first();
    lemma_flatten_len(rest, cols);
    assert(r * cols + c < rows.len() * cols) by (nonlinear_arith)
        requires 0 <= r < rows.len(), 0 <= c < cols;
    assert(0 <= r * cols) by (nonlinear_arith) requires 0 <= r, 0 <= cols;
    if r > 0 {
        lemma_flatten_index(rest, cols, r - 1, c);
        assert(r * cols + c - cols == (r - 1) * cols + c) by (nonlinear_arith);
    }
}

} // verus!

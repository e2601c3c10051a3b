//! What crosses a native boundary: flat buffers with their dimensions, and
//! status codes.
use crate::error::EmbedError;
use crate::output::vector_rows;
use vstd::prelude::*;

verus! {

/// The status code of a call that succeeded.
pub const STATUS_OK: i32 = 0;

/// The status code of a call that failed, whatever the reason.
pub const STATUS_FAILURE: i32 = -1;

/// The status code that stands for an outcome.
pub fn status_of<T, E>(outcome: &Result<T, E>) -> (code: i32)
    ensures
        code == if outcome is Ok {
            STATUS_OK
        } else {
            STATUS_FAILURE
        },
{
    match outcome {
        Ok(_) => STATUS_OK,
        Err(_) => STATUS_FAILURE,
    }
}

/// The vectors of a batch in one buffer, vector after vector.
#[derive(Debug)]
pub struct FlatEmbeddings {
    /// Number of vectors.
    pub count: usize,
    /// Length of each vector.
    pub dim: usize,
    /// The elements of all vectors, in order.
    pub values: Vec<u32>,
}

/// All vectors have the length of the first one.
pub open spec fn uniform(rows: Seq<Seq<u32>>) -> bool {
    forall|i: int| 0 <= i < rows.len() ==> (#[trigger] rows[i]).len() == rows[0].len()
}

/// The length of the first vector; zero where there is none.
pub open spec fn common_dim(rows: Seq<Seq<u32>>) -> nat {
    if rows.len() > 0 {
        rows[0].len()
    } else {
        0
    }
}

/// `r` is the layout of the given vectors in one buffer: the vectors one
/// after the other, with their number and their common length, or a
/// refusal where they differ in length.
pub open spec fn is_flattening(r: Result<FlatEmbeddings, EmbedError>, rows: Seq<Seq<u32>>) -> bool {
    match r {
        Ok(flat) => {
            &&& uniform(rows)
            &&& flat.count == rows.len()
            &&& flat.dim == common_dim(rows)
            &&& flat.values@ == rows.flatten()
            &&& flat.values@.len() == flat.count * flat.dim
        },
        Err(e) => !uniform(rows) && e == EmbedError::InconsistentDimension,
    }
}

/// Lays the vectors of a batch out in one buffer. Vectors of different
/// lengths have no such layout and are refused.
pub fn flatten_embeddings(vectors: &Vec<Vec<u32>>) -> (r: Result<FlatEmbeddings, EmbedError>)
    ensures
        is_flattening(r, vector_rows(vectors@)),
{
    let ghost rows = vector_rows(vectors@);
    let count: usize = vectors.len();
    let dim: usize = if count > 0 {
        vectors[0].len()
    } else {
        0
    };
    let mut values: Vec<u32> = Vec::new();
    let mut i: usize = 0;
    while i < count
        invariant
            i <= count,
            count == vectors@.len(),
            rows == vector_rows(vectors@),
            dim == common_dim(rows),
            forall|r: int| 0 <= r < i ==> (#[trigger] rows[r]).len() == dim,
            values@ == rows.take(i as int).flatten(),
            values@.len() == i * dim,
        decreases count - i,
    {
        let v = &vectors[i];
        if v.len() != dim {
            assert(rows[i as int].len() != rows[0].len());
            return Err(EmbedError::InconsistentDimension);
        }
        values.extend_from_slice(v.as_slice());
        proof {
            assert(rows.take(i + 1) =~= rows.take(i as int).push(rows[i as int]));
            rows.take(i as int).lemma_flatten_push(rows[i as int]);
            assert((i + 1) * dim == i * dim + dim) by (nonlinear_arith);
        }
        i += 1;
    }
    proof {
        assert(rows.take(count as int) =~= rows);
    }
    Ok(FlatEmbeddings { count, dim, values })
}

/// Turns the outcome of embedding a batch into its flat layout: a failure
/// is passed on as it is, and vectors are laid out in one buffer.
pub fn flat_outcome(outcome: Result<Vec<Vec<u32>>, EmbedError>) -> (r: Result<
    FlatEmbeddings,
    EmbedError,
>)
    ensures
        match outcome {
            Ok(vectors) => is_flattening(r, vector_rows(vectors@)),
            Err(cause) => r matches Err(e) && e == cause,
        },
{
    match outcome {
        Ok(vectors) => flatten_embeddings(&vectors),
        Err(cause) => Err(cause),
    }
}

} // verus!

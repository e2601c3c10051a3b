//! Cutting one embedding vector per sequence out of a model's output.
use crate::batch::{is_rearrangement, rearranged};
use crate::error::EmbedError;
use rten::RunError;
use vstd::prelude::*;

verus! {

/// The number of elements of a tensor of the given shape: the product of
/// its dimensions.
pub open spec fn volume(shape: Seq<usize>) -> nat
    decreases shape.len(),
{
    if shape.len() == 0 {
        1
    } else {
        volume(shape.drop_last()) * (shape.last() as nat)
    }
}

/// What a model run handed back, as plain values. The caller who ran the
/// model reads them out of the runtime's tensor.
#[derive(Debug)]
pub enum ModelOutput {
    /// A tensor of floats.
    FloatTensor {
        /// The size of each dimension.
        shape: Vec<usize>,
        /// The elements in row-major order, each as the bit pattern of its
        /// single-precision value.
        bits: Vec<u32>,
    },
    /// A tensor of any other element type.
    Other,
}

impl ModelOutput {
    /// A tensor holds as many elements as its shape has room for.
    pub open spec fn wf(&self) -> bool {
        match self {
            ModelOutput::FloatTensor { shape, bits } => bits@.len() == volume(shape@),
            ModelOutput::Other => true,
        }
    }
}

/// How a tensor of floats holds the embeddings of a batch.
#[derive(Clone, Copy, Debug, PartialEq, Eq, Structural)]
pub enum OutputLayout {
    /// Shape `[batch, dim]`: one pooled vector per sequence.
    Pooled {
        /// Length of each vector.
        dim: usize,
    },
    /// Shape `[batch, seq_len, dim]`: one vector per token of each sequence.
    PerToken {
        /// Number of token positions per sequence.
        seq_len: usize,
        /// Length of each vector.
        dim: usize,
    },
}

impl OutputLayout {
    /// Length of one embedding vector.
    pub open spec fn dim(self) -> nat {
        match self {
            OutputLayout::Pooled { dim } => dim as nat,
            OutputLayout::PerToken { seq_len, dim } => dim as nat,
        }
    }

    /// Number of token positions that the tensor holds for each sequence.
    pub open spec fn positions(self) -> nat {
        match self {
            OutputLayout::Pooled { dim } => 1,
            OutputLayout::PerToken { seq_len, dim } => seq_len as nat,
        }
    }

    /// Number of elements that the tensor holds for each sequence.
    pub open spec fn stride(self) -> nat {
        match self {
            OutputLayout::Pooled { dim } => dim as nat,
            OutputLayout::PerToken { seq_len, dim } => (seq_len as nat) * (dim as nat),
        }
    }
}

/// The layout that a shape stands for: rank 2 is pooled, rank 3 is per
/// token, and no other rank holds embeddings.
pub open spec fn layout_of(shape: Seq<usize>) -> Option<OutputLayout> {
    if shape.len() == 2 {
        Some(OutputLayout::Pooled { dim: shape[1] })
    } else if shape.len() == 3 {
        Some(OutputLayout::PerToken { seq_len: shape[1], dim: shape[2] })
    } else {
        None
    }
}

/// What is left of `data` after skipping `start` elements, cut to at most
/// `count` elements.
pub open spec fn window(data: Seq<u32>, start: nat, count: nat) -> Seq<u32> {
    if start >= data.len() {
        Seq::empty()
    } else if start + count >= data.len() {
        data.subrange(start as int, data.len() as int)
    } else {
        data.subrange(start as int, (start + count) as int)
    }
}

/// The offset at which the elements of sequence `i` begin.
pub open spec fn sequence_start(layout: OutputLayout, i: nat) -> nat {
    i * layout.stride()
}

/// The embedding of sequence `i`: the first `dim` elements of the part of
/// the tensor that belongs to that sequence. In a per-token tensor these
/// are the elements of token position 0.
pub open spec fn embedding(data: Seq<u32>, layout: OutputLayout, i: nat) -> Seq<u32> {
    window(data, sequence_start(layout, i), layout.dim())
}

/// Element `k` of the vector at token position `t` of sequence `i`, in a
/// tensor in row-major order.
pub open spec fn element(data: Seq<u32>, layout: OutputLayout, i: nat, t: nat, k: nat) -> u32 {
    data[(sequence_start(layout, i) + t * layout.dim() + k) as int]
}

/// All elements that the tensor holds for sequence `i`.
pub open spec fn sequence_elements(data: Seq<u32>, layout: OutputLayout, i: nat) -> Seq<u32> {
    window(data, sequence_start(layout, i), layout.stride())
}

/// The embeddings of a batch of `batch` sequences, in batch order.
pub open spec fn embeddings(data: Seq<u32>, layout: OutputLayout, batch: nat) -> Seq<Seq<u32>> {
    Seq::new(batch, |i: int| embedding(data, layout, i as nat))
}

/// The vectors of a result as mathematical sequences, in order.
pub open spec fn vector_rows(vectors: Seq<Vec<u32>>) -> Seq<Seq<u32>> {
    Seq::new(vectors.len(), |i: int| vectors[i]@)
}

/// The result of extraction: the embeddings of the batch, or the reason why
/// the output holds none.
pub open spec fn extraction(output: ModelOutput, batch: nat) -> Result<Seq<Seq<u32>>, EmbedError> {
    match output {
        ModelOutput::Other => Err(EmbedError::UnsupportedOutputType),
        ModelOutput::FloatTensor { shape, bits } => match layout_of(shape@) {
            Some(layout) => Ok(embeddings(bits@, layout, batch)),
            None => Err(EmbedError::UnexpectedOutputShape { shape }),
        },
    }
}

/// `r` is what extraction makes of `output` for a batch of `batch`
/// sequences.
pub open spec fn is_extraction(
    r: Result<Vec<Vec<u32>>, EmbedError>,
    output: ModelOutput,
    batch: nat,
) -> bool {
    match (r, extraction(output, batch)) {
        (Ok(vectors), Ok(rows)) => vector_rows(vectors@) == rows,
        (Err(got), Err(want)) => got == want,
        _ => false,
    }
}

/// `r` is what becomes of the outcome of a model run for a batch of `batch`
/// sequences: a failed run is passed on with the runtime's own error, and
/// an output is put through extraction.
pub open spec fn is_outcome(
    r: Result<Vec<Vec<u32>>, EmbedError>,
    outcome: Result<ModelOutput, RunError>,
    batch: nat,
) -> bool {
    match outcome {
        Ok(output) => is_extraction(r, output, batch),
        Err(cause) => r matches Err(e) && e == EmbedError::RuntimeExecutionFailure(cause),
    }
}

/// Tells the layout of a tensor from its shape.
pub fn classify_shape(shape: &Vec<usize>) -> (layout: Option<OutputLayout>)
    ensures
        layout == layout_of(shape@),
{
    if shape.len() == 2 {
        Some(OutputLayout::Pooled { dim: shape[1] })
    } else if shape.len() == 3 {
        Some(OutputLayout::PerToken { seq_len: shape[1], dim: shape[2] })
    } else {
        None
    }
}

/// Copies a window of `data` into a vector of its own.
fn copy_window(data: &Vec<u32>, start: usize, count: usize) -> (out: Vec<u32>)
    ensures
        out@ == window(data@, start as nat, count as nat),
{
    let len: usize = data.len();
    let mut out: Vec<u32> = Vec::new();
    if start < len {
        let end: usize = if count >= len - start {
            len
        } else {
            start + count
        };
        let mut k: usize = start;
        while k < end
            invariant
                start <= k <= end <= len,
                len == data@.len(),
                out@ == data@.subrange(start as int, k as int),
            decreases end - k,
        {
            out.push(data[k]);
            assert(out@ =~= data@.subrange(start as int, k + 1));
            k += 1;
        }
    }
    out
}

/// The offset at which the elements of sequence `i` begin, if it is a valid
/// buffer offset at all.
fn sequence_offset(layout: OutputLayout, i: usize) -> (offset: Option<usize>)
    ensures
        match offset {
            Some(o) => o == sequence_start(layout, i as nat),
            None => sequence_start(layout, i as nat) > usize::MAX,
        },
{
    if i == 0 {
        return Some(0);
    }
    let stride: Option<usize> = match layout {
        OutputLayout::Pooled { dim } => Some(dim),
        OutputLayout::PerToken { seq_len, dim } => seq_len.checked_mul(dim),
    };
    match stride {
        Some(s) => i.checked_mul(s),
        None => {
            assert((i as nat) * layout.stride() >= layout.stride()) by (nonlinear_arith)
                requires
                    i >= 1,
            ;
            None
        },
    }
}

/// Cuts the embedding of each of `batch` sequences out of the elements of
/// a tensor with the given layout.
pub fn extract_rows(data: &Vec<u32>, layout: OutputLayout, batch: usize) -> (out: Vec<Vec<u32>>)
    ensures
        vector_rows(out@) == embeddings(data@, layout, batch as nat),
{
    let dim: usize = match layout {
        OutputLayout::Pooled { dim } => dim,
        OutputLayout::PerToken { seq_len, dim } => dim,
    };
    let mut out: Vec<Vec<u32>> = Vec::new();
    let mut i: usize = 0;
    assert(data@.len() == data.len());
    while i < batch
        invariant
            i <= batch,
            dim == layout.dim(),
            data@.len() <= usize::MAX,
            out@.len() == i,
            forall|r: int| 0 <= r < i ==> (#[trigger] out@[r])@ == embedding(data@, layout, r as nat),
        decreases batch - i,
    {
        let row = match sequence_offset(layout, i) {
            Some(start) => copy_window(data, start, dim),
            None => Vec::new(),
        };
        assert(row@ =~= embedding(data@, layout, i as nat));
        out.push(row);
        i += 1;
    }
    assert(vector_rows(out@) =~= embeddings(data@, layout, batch as nat));
    out
}

/// Extracts one embedding per sequence of a batch of `batch` sequences from
/// what the model handed back.
pub fn extract_embeddings(output: ModelOutput, batch: usize) -> (r: Result<Vec<Vec<u32>>, EmbedError>)
    ensures
        is_extraction(r, output, batch as nat),
{
    match output {
        ModelOutput::Other => Err(EmbedError::UnsupportedOutputType),
        ModelOutput::FloatTensor { shape, bits } => match classify_shape(&shape) {
            Some(layout) => Ok(extract_rows(&bits, layout, batch)),
            None => Err(EmbedError::UnexpectedOutputShape { shape }),
        },
    }
}

/// Turns the outcome of a model run into the result of embedding a batch of
/// `batch` sequences.
pub fn embed_outcome(outcome: Result<ModelOutput, RunError>, batch: usize) -> (r: Result<
    Vec<Vec<u32>>,
    EmbedError,
>)
    ensures
        is_outcome(r, outcome, batch as nat),
{
    match outcome {
        Ok(output) => extract_embeddings(output, batch),
        Err(cause) => Err(EmbedError::RuntimeExecutionFailure(cause)),
    }
}

/// A tensor of rank two or three holds `shape[0]` sequences of `stride`
/// elements each.
pub proof fn lemma_volume_of_layout(shape: Seq<usize>)
    requires
        layout_of(shape) is Some,
    ensures
        volume(shape) == shape[0] * layout_of(shape)->0.stride(),
{
    reveal_with_fuel(volume, 4);
    if shape.len() == 2 {
        assert(shape.drop_last().drop_last().len() == 0);
        assert(volume(shape) == 1 * (shape[0] as nat) * (shape[1] as nat));
    } else {
        assert(shape.drop_last().drop_last().drop_last().len() == 0);
        assert(volume(shape) == 1 * (shape[0] as nat) * (shape[1] as nat) * (shape[2] as nat));
        assert((shape[0] as nat) * (shape[1] as nat) * (shape[2] as nat) == (shape[0] as nat) * ((
        shape[1] as nat) * (shape[2] as nat))) by (nonlinear_arith);
    }
}

/// In a tensor of `sequences` rows, row `i` lies within the tensor, and a
/// row with at least one token position is at least one vector long.
proof fn lemma_row_lies_within(layout: OutputLayout, sequences: nat, i: nat)
    requires
        layout.positions() >= 1,
        i < sequences,
    ensures
        layout.dim() <= layout.stride(),
        sequence_start(layout, i) + layout.stride() <= sequences * layout.stride(),
{
    let stride = layout.stride();
    let dim = layout.dim();
    assert(stride >= dim) by (nonlinear_arith)
        requires
            stride == layout.positions() * dim,
            layout.positions() >= 1,
    ;
    assert((i + 1) * stride <= sequences * stride) by (nonlinear_arith)
        requires
            i + 1 <= sequences,
    ;
    assert((i + 1) * stride == i * stride + stride) by (nonlinear_arith);
}

/// In a tensor that holds `sequences` sequences with at least one token
/// position each, the embedding of every sequence is complete, and it is
/// the vector at token position 0 of that sequence: no element of another
/// position or of another sequence is in it.
pub proof fn lemma_embedding_is_first_position(
    data: Seq<u32>,
    layout: OutputLayout,
    sequences: nat,
    i: nat,
)
    requires
        data.len() == sequences * layout.stride(),
        layout.positions() >= 1,
        i < sequences,
    ensures
        embedding(data, layout, i).len() == layout.dim(),
        forall|k: nat|
            k < layout.dim() ==> embedding(data, layout, i)[k as int] == #[trigger] element(
                data,
                layout,
                i,
                0,
                k,
            ),
{
    lemma_row_lies_within(layout, sequences, i);
}

/// Extraction keeps the order of the tensor's rows: in a tensor that holds
/// one row per sequence, the vector of a sequence is read from the row of
/// that sequence alone, so rearranging the rows rearranges the vectors in
/// the same way.
pub proof fn lemma_vectors_follow_output_rows(
    data: Seq<u32>,
    moved: Seq<u32>,
    layout: OutputLayout,
    order: Seq<int>,
)
    requires
        is_rearrangement(order, order.len()),
        layout.positions() >= 1,
        data.len() == order.len() * layout.stride(),
        moved.len() == order.len() * layout.stride(),
        forall|i: int|
            0 <= i < order.len() ==> #[trigger] sequence_elements(moved, layout, i as nat)
                == sequence_elements(data, layout, order[i] as nat),
    ensures
        embeddings(moved, layout, order.len()) == rearranged(
            embeddings(data, layout, order.len()),
            order,
        ),
{
    let n = order.len();
    assert forall|i: int| 0 <= i < n implies embedding(moved, layout, i as nat) == embedding(
        data,
        layout,
        order[i] as nat,
    ) by {
        lemma_embedding_heads_its_row(moved, layout, n, i as nat);
        lemma_embedding_heads_its_row(data, layout, n, order[i] as nat);
        assert(sequence_elements(moved, layout, i as nat) == sequence_elements(
            data,
            layout,
            order[i] as nat,
        ));
    }
    assert(embeddings(moved, layout, n) =~= rearranged(embeddings(data, layout, n), order));
}

/// In a tensor that holds `sequences` rows, the embedding of a sequence is
/// the head of its row.
proof fn lemma_embedding_heads_its_row(
    data: Seq<u32>,
    layout: OutputLayout,
    sequences: nat,
    i: nat,
)
    requires
        data.len() == sequences * layout.stride(),
        layout.positions() >= 1,
        i < sequences,
    ensures
        embedding(data, layout, i) == sequence_elements(data, layout, i).subrange(
            0,
            layout.dim() as int,
        ),
{
    lemma_row_lies_within(layout, sequences, i);
    assert(embedding(data, layout, i) =~= sequence_elements(data, layout, i).subrange(
        0,
        layout.dim() as int,
    ));
}

/// Where the model hands back a well-formed tensor of rank two or three
/// with a row for every sequence of the batch, extraction succeeds, and
/// vector `i` of the result is the complete vector at token position 0 of
/// row `i`. All vectors then have the same length.
pub proof fn lemma_extraction_of_complete_output(output: ModelOutput, batch: nat)
    requires
        output is FloatTensor,
        output.wf(),
        layout_of(output->shape@) is Some,
        layout_of(output->shape@)->0.positions() >= 1,
        batch <= output->shape@[0],
    ensures
        extraction(output, batch) is Ok,
        extraction(output, batch)->Ok_0.len() == batch,
        forall|i: nat, k: nat|
            i < batch && k < layout_of(output->shape@)->0.dim() ==> (extraction(
                output,
                batch,
            )->Ok_0)[i as int][k as int] == #[trigger] element(
                output->bits@,
                layout_of(output->shape@)->0,
                i,
                0,
                k,
            ),
        forall|i: int|
            0 <= i < batch ==> (#[trigger] (extraction(output, batch)->Ok_0)[i]).len()
                == layout_of(output->shape@)->0.dim(),
{
    let shape = output->shape@;
    let data = output->bits@;
    let layout = layout_of(shape)->0;
    let rows = extraction(output, batch)->Ok_0;
    lemma_volume_of_layout(shape);
    assert forall|i: int| 0 <= i < batch implies (#[trigger] rows[i]).len() == layout.dim() by {
        lemma_embedding_is_first_position(data, layout, shape[0] as nat, i as nat);
    }
    assert forall|i: nat, k: nat| i < batch && k < layout.dim() implies rows[i as int][k as int]
        == #[trigger] element(data, layout, i, 0, k) by {
        lemma_embedding_is_first_position(data, layout, shape[0] as nat, i);
    }
}

} // verus!

//! Padding of a batch of token sequences into rectangular grids.
use crate::output::vector_rows;
use vstd::prelude::*;

verus! {

/// The sequences of a batch as mathematical sequences, in batch order.
pub open spec fn batch_rows(batch: Seq<Vec<i32>>) -> Seq<Seq<i32>> {
    Seq::new(batch.len(), |i: int| batch[i]@)
}

/// Length of the longest sequence; zero for a batch without sequences.
pub open spec fn max_len(rows: Seq<Seq<i32>>) -> nat
    decreases rows.len(),
{
    if rows.len() == 0 {
        0
    } else {
        let rest = max_len(rows.drop_last());
        if rows.last().len() > rest {
            rows.last().len()
        } else {
            rest
        }
    }
}

/// `max_len` is an upper bound on every sequence length, and some sequence
/// attains it.
pub proof fn lemma_max_len_is_maximum(rows: Seq<Seq<i32>>)
    ensures
        forall|i: int| 0 <= i < rows.len() ==> (#[trigger] rows[i]).len() <= max_len(rows),
        rows.len() > 0 ==> exists|i: int|
            0 <= i < rows.len() && (#[trigger] rows[i]).len() == max_len(rows),
    decreases rows.len(),
{
    if rows.len() > 0 {
        let init = rows.drop_last();
        lemma_max_len_is_maximum(init);
        assert forall|i: int| 0 <= i < rows.len() implies (#[trigger] rows[i]).len() <= max_len(
            rows,
        ) by {
            if i < init.len() {
                assert(init[i] == rows[i]);
            }
        }
        if rows.last().len() > max_len(init) || init.len() == 0 {
            assert(rows[rows.len() - 1].len() == max_len(rows));
        } else {
            let k = choose|k: int| 0 <= k < init.len() && (#[trigger] init[k]).len() == max_len(init);
            assert(rows[k] == init[k]);
        }
    }
}

/// Which of the three input grids of a transformer model a grid is.
#[derive(Clone, Copy, Debug, PartialEq, Eq, Structural)]
pub enum GridKind {
    /// The token ids themselves, padded with 0.
    TokenIds,
    /// 1 where a token stands, 0 where the row is padded.
    AttentionMask,
    /// Segment ids of single-segment input: 0 everywhere.
    TypeIds,
}

/// The value of column `j` in the row that `seq` is padded into.
pub open spec fn grid_cell(kind: GridKind, seq: Seq<i32>, j: int) -> i32 {
    match kind {
        GridKind::TokenIds => if 0 <= j < seq.len() {
            seq[j]
        } else {
            0i32
        },
        GridKind::AttentionMask => if 0 <= j < seq.len() {
            1i32
        } else {
            0i32
        },
        GridKind::TypeIds => 0i32,
    }
}

/// The row of `width` cells that `seq` is padded into.
pub open spec fn grid_row(kind: GridKind, seq: Seq<i32>, width: nat) -> Seq<i32> {
    Seq::new(width, |j: int| grid_cell(kind, seq, j))
}

/// The grid of a batch: one row per sequence, in batch order, each padded on
/// the right to the length of the longest sequence.
pub open spec fn grid_rows(kind: GridKind, rows: Seq<Seq<i32>>) -> Seq<Seq<i32>> {
    Seq::new(rows.len(), |i: int| grid_row(kind, rows[i], max_len(rows)))
}

/// A rectangular grid of 32-bit integers in row-major layout.
#[derive(Debug)]
pub struct Grid {
    /// Number of rows.
    pub rows: usize,
    /// Number of columns.
    pub cols: usize,
    /// The cells, row after row.
    pub cells: Vec<i32>,
}

impl Grid {
    /// The buffer holds exactly `rows * cols` cells.
    pub open spec fn wf(&self) -> bool {
        self.cells@.len() == self.rows * self.cols
    }

    /// This grid is the padding of the given sequences: one row each, as
    /// wide as the longest of them, filled as its kind says.
    pub open spec fn pads(&self, kind: GridKind, rows: Seq<Seq<i32>>) -> bool {
        &&& self.wf()
        &&& self.rows == rows.len()
        &&& self.cols == max_len(rows)
        &&& self@ == grid_rows(kind, rows)
    }

    /// Row `i` of the grid.
    pub open spec fn row(&self, i: int) -> Seq<i32> {
        self.cells@.subrange(i * self.cols, i * self.cols + self.cols)
    }
}

impl View for Grid {
    type V = Seq<Seq<i32>>;

    open spec fn view(&self) -> Seq<Seq<i32>> {
        Seq::new(self.rows as nat, |i: int| self.row(i))
    }
}

/// Row `r` of a grid of `n` rows of width `w` occupies a range of the buffer
/// that ends where row `r + 1` begins and lies within the `n * w` cells.
proof fn lemma_row_range(r: int, n: int, w: int)
    requires
        0 <= r < n,
        0 <= w,
    ensures
        0 <= r * w,
        (r + 1) * w == r * w + w,
        r * w + w <= n * w,
{
    assert(0 <= r * w) by (nonlinear_arith)
        requires
            0 <= r,
            0 <= w,
    ;
    assert((r + 1) * w == r * w + w) by (nonlinear_arith);
    assert((r + 1) * w <= n * w) by (nonlinear_arith)
        requires
            r + 1 <= n,
            0 <= w,
    ;
}

/// Computes the length of the longest sequence of the batch.
pub fn max_sequence_len(batch: &Vec<Vec<i32>>) -> (m: usize)
    ensures
        m == max_len(batch_rows(batch@)),
{
    let ghost rows = batch_rows(batch@);
    let mut m: usize = 0;
    let mut i: usize = 0;
    while i < batch.len()
        invariant
            i <= batch.len(),
            rows == batch_rows(batch@),
            m == max_len(rows.take(i as int)),
        decreases batch.len() - i,
    {
        let n: usize = batch[i].len();
        proof {
            assert(rows.take(i + 1).drop_last() =~= rows.take(i as int));
            assert(rows.take(i + 1).last() == batch[i as int]@);
        }
        if n > m {
            m = n;
        }
        i += 1;
    }
    proof {
        assert(rows.take(batch.len() as int) =~= rows);
    }
    m
}

/// The cell in row `r` and column `c` of a row-major buffer of rows of
/// `width` cells.
pub open spec fn flat_cell(cells: Seq<i32>, width: int, r: int, c: int) -> i32 {
    cells[r * width + c]
}

/// Pads the batch into the grid of the given kind.
pub fn build_grid(kind: GridKind, batch: &Vec<Vec<i32>>) -> (grid: Grid)
    ensures
        grid.pads(kind, batch_rows(batch@)),
{
    let ghost rows = batch_rows(batch@);
    let width: usize = max_sequence_len(batch);
    let mut cells: Vec<i32> = Vec::new();
    let mut i: usize = 0;
    while i < batch.len()
        invariant
            i <= batch.len(),
            rows == batch_rows(batch@),
            width == max_len(rows),
            cells@.len() == i * width,
            forall|r: int, c: int|
                0 <= r < i && 0 <= c < width ==> #[trigger] flat_cell(cells@, width as int, r, c)
                    == grid_cell(kind, rows[r], c),
        decreases batch.len() - i,
    {
        let seq = &batch[i];
        let mut j: usize = 0;
        while j < width
            invariant
                i < batch.len(),
                j <= width,
                rows == batch_rows(batch@),
                seq@ == rows[i as int],
                cells@.len() == i * width + j,
                forall|r: int, c: int|
                    0 <= r < i && 0 <= c < width ==> #[trigger] flat_cell(
                        cells@,
                        width as int,
                        r,
                        c,
                    ) == grid_cell(kind, rows[r], c),
                forall|c: int|
                    0 <= c < j ==> #[trigger] flat_cell(cells@, width as int, i as int, c)
                        == grid_cell(kind, rows[i as int], c),
            decreases width - j,
        {
            let value: i32 = match kind {
                GridKind::TokenIds => if j < seq.len() {
                    seq[j]
                } else {
                    0
                },
                GridKind::AttentionMask => if j < seq.len() {
                    1
                } else {
                    0
                },
                GridKind::TypeIds => 0,
            };
            let ghost before = cells@;
            cells.push(value);
            proof {
                assert forall|r: int, c: int| 0 <= r < i && 0 <= c < width implies #[trigger] flat_cell(
                    cells@,
                    width as int,
                    r,
                    c,
                ) == grid_cell(kind, rows[r], c) by {
                    lemma_row_range(r, i as int, width as int);
                    assert(flat_cell(before, width as int, r, c) == grid_cell(kind, rows[r], c));
                }
                assert forall|c: int| 0 <= c < j + 1 implies #[trigger] flat_cell(
                    cells@,
                    width as int,
                    i as int,
                    c,
                ) == grid_cell(kind, rows[i as int], c) by {
                    if c < j {
                        assert(flat_cell(before, width as int, i as int, c) == grid_cell(
                            kind,
                            rows[i as int],
                            c,
                        ));
                    }
                }
            }
            j += 1;
        }
        proof {
            lemma_row_range(i as int, i + 1, width as int);
        }
        i += 1;
    }
    let grid = Grid { rows: batch.len(), cols: width, cells };
    proof {
        let want = grid_rows(kind, rows);
        assert(grid@.len() == want.len());
        assert forall|r: int| 0 <= r < grid@.len() implies grid@[r] =~= want[r] by {
            lemma_row_range(r, batch.len() as int, width as int);
            assert forall|c: int| 0 <= c < width implies grid.row(r)[c] == grid_cell(
                kind,
                rows[r],
                c,
            ) by {
                assert(grid.row(r)[c] == flat_cell(cells@, width as int, r, c));
            }
        }
        assert(grid@ =~= want);
    }
    grid
}

/// `order` rearranges `n` positions: `order[i]` is the old position of what
/// stands at the new position `i`, and every old position occurs.
pub open spec fn is_rearrangement(order: Seq<int>, n: nat) -> bool {
    &&& order.len() == n
    &&& forall|i: int| 0 <= i < n ==> 0 <= #[trigger] order[i] < n
    &&& forall|j: int| 0 <= j < n ==> #[trigger] order.contains(j)
}

/// The items in their new order.
pub open spec fn rearranged<T>(items: Seq<T>, order: Seq<int>) -> Seq<T> {
    Seq::new(order.len(), |i: int| items[order[i]])
}

/// Rearranging a batch does not change the length of its longest sequence.
pub proof fn lemma_max_len_of_rearranged(rows: Seq<Seq<i32>>, order: Seq<int>)
    requires
        is_rearrangement(order, rows.len()),
    ensures
        max_len(rearranged(rows, order)) == max_len(rows),
{
    let moved = rearranged(rows, order);
    lemma_max_len_is_maximum(rows);
    lemma_max_len_is_maximum(moved);
    if rows.len() > 0 {
        let i = choose|i: int| 0 <= i < moved.len() && (#[trigger] moved[i]).len() == max_len(moved);
        assert(moved[i] == rows[order[i]]);
        let j = choose|j: int| 0 <= j < rows.len() && (#[trigger] rows[j]).len() == max_len(rows);
        assert(order.contains(j));
        let back = choose|back: int| 0 <= back < order.len() && #[trigger] order[back] == j;
        assert(moved[back] == rows[j]);
    }
}

/// Padding keeps the order of the batch: the grid of a rearranged batch is
/// the grid of the batch with its rows rearranged in the same way. Row `i`
/// of a grid is always the padding of sequence `i`.
pub proof fn lemma_grid_follows_batch_order(kind: GridKind, rows: Seq<Seq<i32>>, order: Seq<int>)
    requires
        is_rearrangement(order, rows.len()),
    ensures
        grid_rows(kind, rearranged(rows, order)) == rearranged(grid_rows(kind, rows), order),
        forall|i: int|
            0 <= i < rows.len() ==> #[trigger] grid_rows(kind, rows)[i] == grid_row(
                kind,
                rows[i],
                max_len(rows),
            ),
{
    lemma_max_len_of_rearranged(rows, order);
    assert(grid_rows(kind, rearranged(rows, order)) =~= rearranged(grid_rows(kind, rows), order));
}

/// What a batch needs before any vector can be returned.
#[derive(Debug)]
pub enum BatchPlan {
    /// Nothing has to be computed: these are the vectors of the batch.
    Immediate(Vec<Vec<u32>>),
    /// The model has to run on these grids.
    Forward {
        /// The padded token ids.
        token_ids: Grid,
        /// The attention mask.
        attention_mask: Grid,
        /// The type ids, for models that ask for them.
        type_ids: Grid,
    },
}

/// The vectors of a batch that carries no token at all: one empty vector
/// per sequence. A batch with a token in it has no such result.
pub open spec fn immediate_result(rows: Seq<Seq<i32>>) -> Option<Seq<Seq<u32>>> {
    if max_len(rows) == 0 {
        Some(Seq::new(rows.len(), |i: int| Seq::<u32>::empty()))
    } else {
        None
    }
}

/// Decides, from the batch alone, whether the model has to run, and pads
/// the batch if it has to.
pub fn plan_batch(batch: &Vec<Vec<i32>>) -> (plan: BatchPlan)
    ensures
        match plan {
            BatchPlan::Immediate(vectors) => immediate_result(batch_rows(batch@)) == Some(
                vector_rows(vectors@),
            ),
            BatchPlan::Forward { token_ids, attention_mask, type_ids } => {
                &&& immediate_result(batch_rows(batch@)) is None
                &&& token_ids.pads(GridKind::TokenIds, batch_rows(batch@))
                &&& attention_mask.pads(GridKind::AttentionMask, batch_rows(batch@))
                &&& type_ids.pads(GridKind::TypeIds, batch_rows(batch@))
            },
        },
{
    if max_sequence_len(batch) == 0 {
        let mut vectors: Vec<Vec<u32>> = Vec::new();
        let mut i: usize = 0;
        while i < batch.len()
            invariant
                i <= batch.len(),
                vectors@.len() == i,
                forall|r: int| 0 <= r < i ==> (#[trigger] vectors@[r])@ == Seq::<u32>::empty(),
            decreases batch.len() - i,
        {
            vectors.push(Vec::new());
            i += 1;
        }
        assert(vector_rows(vectors@) =~= immediate_result(batch_rows(batch@))->0);
        BatchPlan::Immediate(vectors)
    } else {
        BatchPlan::Forward {
            token_ids: build_grid(GridKind::TokenIds, batch),
            attention_mask: build_grid(GridKind::AttentionMask, batch),
            type_ids: build_grid(GridKind::TypeIds, batch),
        }
    }
}

} // verus!

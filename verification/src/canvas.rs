//! The canvas: a grid of vectors that is drawn on, one cell at a time.

use crate::number::Number;
use crate::vec3::{IntVector, Vec3};
use vstd::prelude::*;

verus! {

/// A grid of vectors, stored row by row.
pub struct Canvas<T: Number> {
    pub width: usize,
    pub height: usize,
    /// The rows of the grid, each a sequence of cells.
    pub buffer: Vec<Vec<Vec3<T>>>,
}

impl<T: Number> View for Canvas<T> {
    type V = Seq<Seq<Vec3<T>>>;

    /// The rows of the grid, first row first.
    open spec fn view(&self) -> Seq<Seq<Vec3<T>>> {
        Seq::new(self.buffer@.len(), |i: int| self.buffer@[i]@)
    }
}

/// The place that the cell in row `row` and column `col` has among the cells
/// of a grid of the given width, counted row by row from 0.
pub open spec fn row_major_index(width: int, row: int, col: int) -> int {
    row * width + col
}

/// Rows of one length `width`, laid end to end, hold `width` cells for each
/// row, and the cell in column `col` of row `row` comes at its row-major
/// index.
pub proof fn lemma_row_major<A>(rows: Seq<Seq<A>>, width: int)
    requires
        forall|i: int| 0 <= i < rows.len() ==> (#[trigger] rows[i]).len() == width,
    ensures
        rows.flatten().len() == rows.len() * width,
        (forall|row: int, col: int|
            0 <= row < rows.len() && 0 <= col < width ==> {
                let k = #[trigger] row_major_index(width, row, col);
                0 <= k < rows.flatten().len() && rows.flatten()[k] == rows[row][col]
            }),
    decreases rows.len(),
{
    if rows.len() == 0 {
        assert(rows.len() * width == 0) by (nonlinear_arith)
            requires
                rows.len() == 0,
        ;
    } else {
        let above = rows.drop_last();
        let last = rows.last();
        lemma_row_major(above, width);
        assert(rows == above.push(last));
        above.lemma_flatten_push(last);
        assert(rows.len() * width == above.len() * width + width) by (nonlinear_arith)
            requires
                rows.len() == above.len() + 1,
        ;
        assert forall|row: int, col: int| 0 <= row < rows.len() && 0 <= col < width implies {
            let k = #[trigger] row_major_index(width, row, col);
            0 <= k < rows.flatten().len() && rows.flatten()[k] == rows[row][col]
        } by {
            let k = row_major_index(width, row, col);
            if row < above.len() {
                assert(0 <= k < above.len() * width) by (nonlinear_arith)
                    requires
                        k == row * width + col,
                        0 <= row < above.len(),
                        0 <= col < width,
                ;
            } else {
                assert(above.len() * width >= 0) by (nonlinear_arith)
                    requires
                        width >= 0,
                ;
            }
        }
    }
}

impl<T: Number> Canvas<T> {
    /// The grid has `height` rows of `width` cells each.
    pub open spec fn wf(&self) -> bool {
        &&& self@.len() == self.height
        &&& forall|i: int| 0 <= i < self@.len() ==> (#[trigger] self@[i]).len() == self.width
    }

    /// The cells of the grid in row-major order.
    pub open spec fn cells(&self) -> Seq<Vec3<T>> {
        self@.flatten()
    }

    /// A well-formed canvas has `height * width` cells, and its cell in row
    /// `row` and column `col` is the one at `row * width + col` in row-major
    /// order.
    pub proof fn lemma_cells(&self)
        requires
            self.wf(),
        ensures
            self.cells().len() == self.height * self.width,
            (forall|row: int, col: int|
                0 <= row < self.height && 0 <= col < self.width ==> {
                    let k = #[trigger] row_major_index(self.width as int, row, col);
                    0 <= k < self.cells().len() && self.cells()[k] == self@[row][col]
                }),
    {
        lemma_row_major(self@, self.width as int);
    }

    /// A canvas of `height` rows of `width` cells, every cell the zero vector.
    pub fn new(width: usize, height: usize) -> (canvas: Canvas<T>)
        ensures
            canvas.wf(),
            canvas.width == width,
            canvas.height == height,
            forall|i: int, j: int|
                0 <= i < height && 0 <= j < width ==> (#[trigger] canvas@[i][j])@
                    == IntVector::zero(),
    {
        let mut buffer: Vec<Vec<Vec3<T>>> = Vec::new();
        for row_idx in 0..height
            invariant
                buffer@.len() == row_idx,
                forall|i: int| 0 <= i < row_idx ==> (#[trigger] buffer@[i])@.len() == width,
                forall|i: int, j: int|
                    0 <= i < row_idx && 0 <= j < width ==> (#[trigger] buffer@[i]@[j])@
                        == IntVector::zero(),
        {
            let mut canvas_row: Vec<Vec3<T>> = Vec::new();
            for col_idx in 0..width
                invariant
                    canvas_row@.len() == col_idx,
                    forall|j: int| 0 <= j < col_idx ==> (#[trigger] canvas_row@[j])@ == IntVector::zero(),
            {
                let empty_vec = Vec3::<T>::zero();
                canvas_row.push(empty_vec);
            }
            buffer.push(canvas_row);
        }
        Canvas { width, height, buffer }
    }

    /// The cell in row `row` and column `col`.
    pub fn get(&self, row: usize, col: usize) -> (cell: Vec3<T>)
        requires
            row < self@.len(),
            col < self@[row as int].len(),
        ensures
            cell == self@[row as int][col as int],
    {
        self.buffer[row][col]
    }

    /// Stores `cell` in row `row` and column `col`; no other cell changes.
    pub fn set(&mut self, row: usize, col: usize, cell: Vec3<T>)
        requires
            row < old(self)@.len(),
            col < old(self)@[row as int].len(),
        ensures
            final(self).width == old(self).width,
            final(self).height == old(self).height,
            final(self)@ == old(self)@.update(row as int, old(self)@[row as int].update(col as int, cell)),
            old(self).wf() ==> final(self).wf(),
    {
        self.buffer[row][col] = cell;
        assert(self@ =~= old(self)@.update(
            row as int,
            old(self)@[row as int].update(col as int, cell),
        ));
    }
}

} // verus!

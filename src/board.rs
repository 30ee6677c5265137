//! A square board of value slots, addressed by row and column.
use vstd::prelude::*;

use crate::spaces::{ContainerSpace, Space};
use crate::text::{cell_inner, push_char, write_inner, CellText};

verus! {

/// Why a board operation failed.
#[derive(Copy, Clone, Debug, Eq, PartialEq, Structural)]
pub enum BoardError {
    /// A row or column was not below the board's size.
    OutOfBounds,
    /// A supplied matrix was not of the board's size in both dimensions.
    DimensionMismatch,
}

/// The contents of a row of spaces.
pub open spec fn row_view<T>(row: Seq<ContainerSpace<T>>) -> Seq<Option<T>> {
    Seq::new(row.len(), |c: int| row[c]@)
}

/// The contents of a matrix of spaces, row by row.
pub open spec fn matrix_view<T>(m: Seq<Vec<ContainerSpace<T>>>) -> Seq<Seq<Option<T>>> {
    Seq::new(m.len(), |r: int| row_view(m[r]@))
}

/// `m` has `n` rows of `n` cells each.
pub open spec fn is_grid<A>(m: Seq<Seq<A>>, n: nat) -> bool {
    &&& m.len() == n
    &&& forall|r: int| 0 <= r < n ==> #[trigger] m[r].len() == n
}

/// An `n` by `n` grid of empty cells.
pub open spec fn empty_grid<T>(n: nat) -> Seq<Seq<Option<T>>> {
    Seq::new(n, |r: int| Seq::new(n, |c: int| None::<T>))
}

/// The cell (`row`, `col`) lies on a board of size `n`.
pub open spec fn in_bounds(row: int, col: int, n: int) -> bool {
    0 <= row < n && 0 <= col < n
}

/// The grid `m` with cell (`row`, `col`) replaced by `o`.
pub open spec fn grid_update<T>(m: Seq<Seq<Option<T>>>, row: int, col: int, o: Option<T>) -> Seq<
    Seq<Option<T>>,
> {
    m.update(row, m[row].update(col, o))
}

/// The rendering of a row: a pipe, then for each cell its text followed by a pipe.
pub open spec fn row_text<T: CellText>(row: Seq<Option<T>>) -> Seq<char>
    decreases row.len(),
{
    if row.len() == 0 {
        seq!['|']
    } else {
        row_text(row.drop_last()) + cell_inner(row.last()) + seq!['|']
    }
}

/// The rendering of a grid: each row's rendering followed by a line break.
pub open spec fn grid_text<T: CellText>(m: Seq<Seq<Option<T>>>) -> Seq<char>
    decreases m.len(),
{
    if m.len() == 0 {
        Seq::empty()
    } else {
        grid_text(m.drop_last()) + row_text(m.last()) + seq!['\n']
    }
}

/// A board to play on: `SIZE` rows of `SIZE` spaces, each holding zero or one `T`.
pub struct Board<T: Copy, const SIZE: usize> {
    matrix: Vec<Vec<ContainerSpace<T>>>,
}

impl<T: Copy, const SIZE: usize> View for Board<T, SIZE> {
    type V = Seq<Seq<Option<T>>>;

    /// The element held by each cell, row by row.
    closed spec fn view(&self) -> Seq<Seq<Option<T>>> {
        matrix_view(self.matrix@)
    }
}

impl<T: Copy, const SIZE: usize> Board<T, SIZE> {
    /// Well-formedness: the matrix has `SIZE` rows of `SIZE` spaces.
    pub closed spec fn wf(&self) -> bool {
        is_grid(matrix_view(self.matrix@), SIZE as nat)
    }

    /// Creates a board whose spaces are all empty.
    pub fn new() -> (r: Self)
        ensures
            r.wf(),
            r@ == empty_grid::<T>(SIZE as nat),
    {
        let mut matrix: Vec<Vec<ContainerSpace<T>>> = Vec::new();
        let mut i: usize = 0;
        while i < SIZE
            invariant
                i <= SIZE,
                matrix@.len() == i,
                matrix_view(matrix@) =~= empty_grid::<T>(SIZE as nat).take(i as int),
            decreases SIZE - i,
        {
            let mut row: Vec<ContainerSpace<T>> = Vec::new();
            let mut j: usize = 0;
            while j < SIZE
                invariant
                    j <= SIZE,
                    row@.len() == j,
                    forall|c: int| 0 <= c < j ==> (#[trigger] row@[c])@ is None,
                decreases SIZE - j,
            {
                row.push(<ContainerSpace<T> as Space<T>>::new());
                j = j + 1;
            }
            assert(row_view(row@) =~= Seq::new(SIZE as nat, |c: int| None::<T>));
            let ghost before = matrix@;
            matrix.push(row);
            assert forall|k: int| 0 <= k < i implies #[trigger] matrix_view(matrix@)[k] == empty_grid::<
                T,
            >(SIZE as nat)[k] by {
                assert(matrix_view(before)[k] == empty_grid::<T>(SIZE as nat).take(i as int)[k]);
            }
            assert(matrix_view(matrix@) =~= empty_grid::<T>(SIZE as nat).take(i as int + 1));
            i = i + 1;
        }
        let r = Board { matrix };
        assert(r@ =~= empty_grid::<T>(SIZE as nat));
        r
    }
}

impl<T: Copy, const SIZE: usize> Board<T, SIZE> {
    /// Creates a board from a matrix of spaces, which must have `SIZE` rows of `SIZE` spaces.
    pub fn from_matrix(matrix: Vec<Vec<ContainerSpace<T>>>) -> (r: Result<Self, BoardError>)
        ensures
            r is Ok <==> is_grid(matrix_view(matrix@), SIZE as nat),
            r matches Ok(b) ==> b.wf() && b@ == matrix_view(matrix@),
            r matches Err(e) ==> e == BoardError::DimensionMismatch,
    {
        if matrix.len() != SIZE {
            return Err(BoardError::DimensionMismatch);
        }
        let mut i: usize = 0;
        while i < SIZE
            invariant
                i <= SIZE,
                matrix@.len() == SIZE,
                forall|k: int| 0 <= k < i ==> #[trigger] matrix@[k]@.len() == SIZE,
            decreases SIZE - i,
        {
            if matrix[i].len() != SIZE {
                assert(matrix_view(matrix@)[i as int].len() != SIZE);
                return Err(BoardError::DimensionMismatch);
            }
            i = i + 1;
        }
        assert(is_grid(matrix_view(matrix@), SIZE as nat));
        Ok(Board { matrix })
    }

    /// The space at `row`, `col`, or `OutOfBounds` when either is not below `SIZE`.
    pub fn space(&self, row: usize, col: usize) -> (r: Result<&ContainerSpace<T>, BoardError>)
        requires
            self.wf(),
        ensures
            r is Ok <==> in_bounds(row as int, col as int, SIZE as int),
            r matches Ok(s) ==> s@ == self@[row as int][col as int],
            r matches Err(e) ==> e == BoardError::OutOfBounds,
    {
        if row >= SIZE || col >= SIZE {
            return Err(BoardError::OutOfBounds);
        }
        assert(matrix_view(self.matrix@)[row as int].len() == SIZE);
        Ok(&self.matrix[row][col])
    }

    /// The element at `row`, `col` (`None` when the space is empty), or `OutOfBounds`.
    pub fn optional_element(&self, row: usize, col: usize) -> (r: Result<Option<T>, BoardError>)
        requires
            self.wf(),
        ensures
            r is Ok <==> in_bounds(row as int, col as int, SIZE as int),
            r matches Ok(o) ==> o == self@[row as int][col as int],
            r matches Err(e) ==> e == BoardError::OutOfBounds,
    {
        match self.space(row, col) {
            Ok(s) => Ok(*s.as_option()),
            Err(e) => Err(e),
        }
    }

    /// Sets the space at `row`, `col` to `option`, or fails with `OutOfBounds`, leaving the
    /// board as it was.
    pub fn set_optional_element(&mut self, row: usize, col: usize, option: Option<T>) -> (r: Result<
        (),
        BoardError,
    >)
        requires
            old(self).wf(),
        ensures
            r is Ok <==> in_bounds(row as int, col as int, SIZE as int),
            r is Ok ==> final(self)@ == grid_update(old(self)@, row as int, col as int, option),
            r matches Err(e) ==> e == BoardError::OutOfBounds && final(self)@ == old(self)@,
            final(self).wf(),
    {
        if row >= SIZE || col >= SIZE {
            return Err(BoardError::OutOfBounds);
        }
        assert(matrix_view(self.matrix@)[row as int].len() == SIZE);
        self.matrix[row][col].set_optional_element(option);
        assert(self@ =~~= grid_update(old(self)@, row as int, col as int, option));
        Ok(())
    }

    /// Puts `element` at `row`, `col`, replacing any element there, or fails with
    /// `OutOfBounds`.
    pub fn set_element(&mut self, row: usize, col: usize, element: T) -> (r: Result<(), BoardError>)
        requires
            old(self).wf(),
        ensures
            r is Ok <==> in_bounds(row as int, col as int, SIZE as int),
            r is Ok ==> final(self)@ == grid_update(old(self)@, row as int, col as int, Some(element)),
            r matches Err(e) ==> e == BoardError::OutOfBounds && final(self)@ == old(self)@,
            final(self).wf(),
    {
        self.set_optional_element(row, col, Some(element))
    }

    /// Empties the space at `row`, `col`, or fails with `OutOfBounds`.
    pub fn clear(&mut self, row: usize, col: usize) -> (r: Result<(), BoardError>)
        requires
            old(self).wf(),
        ensures
            r is Ok <==> in_bounds(row as int, col as int, SIZE as int),
            r is Ok ==> final(self)@ == grid_update(old(self)@, row as int, col as int, None),
            r matches Err(e) ==> e == BoardError::OutOfBounds && final(self)@ == old(self)@,
            final(self).wf(),
    {
        self.set_optional_element(row, col, None)
    }
}

impl<T: Copy + CellText, const SIZE: usize> Board<T, SIZE> {
    /// Appends the rendering of row `row` to `out`.
    fn write_row(&self, out: &mut String, row: usize)
        requires
            self.wf(),
            row < SIZE,
        ensures
            final(out)@ == old(out)@ + row_text(self@[row as int]),
    {
        let ghost cells = self@[row as int];
        assert(matrix_view(self.matrix@)[row as int].len() == SIZE);
        push_char(out, '|');
        let mut col: usize = 0;
        while col < SIZE
            invariant
                col <= SIZE,
                cells.len() == SIZE,
                cells == self@[row as int],
                row < SIZE,
                self.wf(),
                out@ == old(out)@ + row_text(cells.take(col as int)),
            decreases SIZE - col,
        {
            write_inner(out, self.matrix[row][col].as_option());
            push_char(out, '|');
            assert(cells.take(col as int + 1).drop_last() =~= cells.take(col as int));
            assert(out@ =~= old(out)@ + row_text(cells.take(col as int + 1)));
            col = col + 1;
        }
        assert(cells.take(SIZE as int) =~= cells);
    }

    /// Renders row `row`: a pipe, then each space's element (or a blank) followed by a pipe;
    /// `OutOfBounds` when `row` is not below `SIZE`.
    pub fn render_row(&self, row: usize) -> (r: Result<String, BoardError>)
        requires
            self.wf(),
        ensures
            r is Ok <==> row < SIZE,
            r matches Ok(s) ==> s@ == row_text(self@[row as int]),
            r matches Err(e) ==> e == BoardError::OutOfBounds,
    {
        if row >= SIZE {
            return Err(BoardError::OutOfBounds);
        }
        let mut s = String::new();
        self.write_row(&mut s, row);
        Ok(s)
    }

    /// Renders the whole board, row by row, each row followed by a line break.
    pub fn render(&self) -> (r: String)
        requires
            self.wf(),
        ensures
            r@ == grid_text(self@),
    {
        let mut s = String::new();
        let mut row: usize = 0;
        while row < SIZE
            invariant
                row <= SIZE,
                self.wf(),
                self@.len() == SIZE,
                s@ == grid_text(self@.take(row as int)),
            decreases SIZE - row,
        {
            self.write_row(&mut s, row);
            push_char(&mut s, '\n');
            assert(self@.take(row as int + 1).drop_last() =~= self@.take(row as int));
            assert(s@ =~= grid_text(self@.take(row as int + 1)));
            row = row + 1;
        }
        assert(self@.take(SIZE as int) =~= self@);
        s
    }
}

/// On a board of size `n`, the corner (`n - 1`, `n - 1`) can be reached, while (`n`, `0`),
/// (`0`, `n`) and every cell with a negative coordinate are out of bounds.
pub proof fn lemma_bounds(n: int)
    requires
        n > 0,
    ensures
        in_bounds(n - 1, n - 1, n),
        !in_bounds(n, 0, n),
        !in_bounds(0, n, n),
        forall|row: int, col: int| row < 0 || col < 0 ==> !#[trigger] in_bounds(row, col, n),
{
}

impl<T: Copy, const SIZE: usize> Board<T, SIZE> {
    /// A well-formed board's contents are `SIZE` rows of `SIZE` cells.
    pub proof fn lemma_wf_grid(&self)
        requires
            self.wf(),
        ensures
            is_grid(self@, SIZE as nat),
    {
    }
}

} // verus!

//! The coordinate resolver: from a row/column cell reference and a textual
//! board layout to the linear index and board size that address the cell.
//!
//! A layout is a sequence of rows separated by `/`; each character of a row
//! is one cell. Rows may differ in length, so a column is relative to its row.

use vstd::prelude::*;
use crate::text::{decimal, decimal_digits, joined};

verus! {

/// The rows of a layout: the pieces between its `/` separators, in order.
/// A layout without a separator is one row; an empty layout is one empty row.
pub open spec fn rows(s: Seq<char>) -> Seq<Seq<char>>
    decreases s.len(),
{
    if s.len() == 0 {
        seq![Seq::<char>::empty()]
    } else {
        let before = rows(s.drop_last());
        if s.last() == '/' {
            before.push(Seq::<char>::empty())
        } else {
            before.update(before.len() - 1, before.last().push(s.last()))
        }
    }
}

/// How many rows a layout has.
pub open spec fn row_count(s: Seq<char>) -> nat {
    rows(s).len()
}

/// How many cells row `row` of a layout has.
pub open spec fn row_len(s: Seq<char>, row: int) -> nat {
    rows(s)[row].len()
}

/// The number of cells in the first `upto` of the given rows.
pub open spec fn cells_in(r: Seq<Seq<char>>, upto: int) -> nat
    decreases upto,
{
    if upto <= 0 {
        0
    } else {
        cells_in(r, upto - 1) + r[upto - 1].len()
    }
}

/// The number of cells that precede row `row` in row-major order.
pub open spec fn cells_before(s: Seq<char>, row: int) -> nat {
    cells_in(rows(s), row)
}

/// The number of cells of the whole layout.
pub open spec fn total_cells(s: Seq<char>) -> nat {
    cells_in(rows(s), rows(s).len() as int)
}

/// The zero-based position of cell (`row`, `col`) in row-major order.
pub open spec fn linear_index(s: Seq<char>, row: int, col: int) -> int {
    cells_before(s, row) + col
}

/// The board size that a layout implies: half its row count, rounded up.
pub open spec fn board_size(s: Seq<char>) -> nat {
    (row_count(s) + 1) / 2
}

/// Whether (`row`, `col`) names a cell of the layout.
pub open spec fn in_bounds(s: Seq<char>, row: int, col: int) -> bool {
    0 <= row < row_count(s) && 0 <= col < row_len(s, row)
}

/// A resolved cell: what the engine's coordinate conversion takes.
#[derive(Clone, Copy, Debug, PartialEq, Eq, Structural)]
pub struct CellIndex {
    /// The cell's position in row-major order.
    pub index: usize,
    /// The board size implied by the layout.
    pub board_size: usize,
}

/// Why a cell reference could not be resolved.
#[derive(Clone, Copy, Debug, PartialEq, Eq, Structural)]
pub enum ResolveError {
    /// The row is not below the layout's row count.
    RowOutOfBounds { row: usize, rows: usize },
    /// The column is not below the length of its row.
    ColOutOfBounds { col: usize, row_len: usize },
    /// The linear index does not address a cell of the layout.
    InvalidConversion,
}

impl ResolveError {
    /// The text of the error.
    pub open spec fn message_text(self) -> Seq<char> {
        match self {
            ResolveError::RowOutOfBounds { row, rows } => "row out of bounds: "@ + decimal_digits(
                row as nat,
            ) + " (rows="@ + decimal_digits(rows as nat) + ")"@,
            ResolveError::ColOutOfBounds { col, row_len } => "col out of bounds: "@
                + decimal_digits(col as nat) + " (row_len="@ + decimal_digits(row_len as nat)
                + ")"@,
            ResolveError::InvalidConversion => "Invalid coordinate conversion"@,
        }
    }

    /// Renders the error for a client.
    pub fn message(&self) -> (s: String)
        ensures
            s@ == self.message_text(),
    {
        match self {
            ResolveError::RowOutOfBounds { row, rows } => {
                let mut s: String = String::from_str("row out of bounds: ");
                s.append(decimal(*row).as_str());
                s.append(" (rows=");
                s.append(decimal(*rows).as_str());
                s.append(")");
                s
            },
            ResolveError::ColOutOfBounds { col, row_len } => {
                let mut s: String = String::from_str("col out of bounds: ");
                s.append(decimal(*col).as_str());
                s.append(" (row_len=");
                s.append(decimal(*row_len).as_str());
                s.append(")");
                s
            },
            ResolveError::InvalidConversion => String::from_str("Invalid coordinate conversion"),
        }
    }
}

/// A layout always has at least one row.
pub proof fn lemma_rows_nonempty(s: Seq<char>)
    ensures
        rows(s).len() >= 1,
    decreases s.len(),
{
    if s.len() > 0 {
        lemma_rows_nonempty(s.drop_last());
    }
}

/// Two row sequences that agree on their first `upto` rows hold the same
/// number of cells there.
proof fn lemma_cells_in_agree(a: Seq<Seq<char>>, b: Seq<Seq<char>>, upto: int)
    requires
        forall|i: int| 0 <= i < upto ==> a[i] == b[i],
    ensures
        cells_in(a, upto) == cells_in(b, upto),
    decreases upto,
{
    if upto > 0 {
        lemma_cells_in_agree(a, b, upto - 1);
    }
}

/// The cell count grows with the number of rows counted.
pub proof fn lemma_cells_in_monotonic(r: Seq<Seq<char>>, a: int, b: int)
    requires
        a <= b,
    ensures
        cells_in(r, a) <= cells_in(r, b),
    decreases b - a,
{
    if a < b {
        lemma_cells_in_monotonic(r, a, b - 1);
    }
}

/// Every character of a layout is a cell or a separator: the cells and the
/// separators together make up its length.
pub proof fn lemma_cells_and_separators(s: Seq<char>)
    ensures
        rows(s).len() >= 1,
        total_cells(s) + rows(s).len() == s.len() + 1,
    decreases s.len(),
{
    if s.len() == 0 {
        assert(cells_in(rows(s), 1) == cells_in(rows(s), 0) + rows(s)[0].len());
    } else {
        let before = rows(s.drop_last());
        lemma_cells_and_separators(s.drop_last());
        let n = before.len() as int;
        if s.last() == '/' {
            let after = before.push(Seq::<char>::empty());
            lemma_cells_in_agree(before, after, n);
        } else {
            let after = before.update(n - 1, before.last().push(s.last()));
            lemma_cells_in_agree(before, after, n - 1);
        }
    }
}

/// A cell that is in bounds has a linear index below the total cell count.
pub proof fn lemma_index_below_total(s: Seq<char>, row: int, col: int)
    requires
        in_bounds(s, row, col),
    ensures
        0 <= linear_index(s, row, col) < total_cells(s),
        total_cells(s) <= s.len(),
{
    lemma_cells_and_separators(s);
    lemma_cells_in_monotonic(rows(s), row + 1, rows(s).len() as int);
}

/// The rows are the layout split at its separators: no row holds a
/// separator, and the rows written one after another with a separator
/// between neighbours are the layout again.
pub proof fn lemma_rows_split(s: Seq<char>)
    ensures
        forall|i: int, j: int|
            0 <= i < rows(s).len() && 0 <= j < rows(s)[i].len() ==> rows(s)[i][j] != '/',
        joined(rows(s), seq!['/']) == s,
    decreases s.len(),
{
    let sep = seq!['/'];
    if s.len() == 0 {
        assert(joined(rows(s), sep) =~= s);
    } else {
        let front = s.drop_last();
        let before = rows(front);
        lemma_rows_split(front);
        let n = before.len() as int;
        if s.last() == '/' {
            let after = before.push(Seq::<char>::empty());
            assert(after.drop_last() =~= before);
        } else {
            let after = before.update(n - 1, before.last().push(s.last()));
            if n == 1 {
                assert(joined(after, sep) =~= front.push(s.last()));
            } else {
                assert(after.drop_last() =~= before.drop_last());
                assert(joined(before, sep) == joined(before.drop_last(), sep) + sep
                    + before.last());
            }
            assert(front.push(s.last()) =~= s);
        }
    }
}

/// The lengths of the rows of a layout, in order.
pub fn row_lengths(layout: &str) -> (lengths: Vec<usize>)
    ensures
        lengths@.len() == row_count(layout@),
        forall|i: int| 0 <= i < lengths@.len() ==> lengths@[i] == row_len(layout@, i),
{
    let n: usize = layout.unicode_len();
    let mut lengths: Vec<usize> = Vec::new();
    let mut current: usize = 0;
    let mut i: usize = 0;
    let mut chars = layout.chars();
    proof {
        assert(layout@.take(0) =~= Seq::<char>::empty());
    }
    for c in it: chars
        invariant
            it.seq() == layout@,
            n == layout@.len(),
            i == it.index(),
            i <= n,
            current <= i,
            lengths@.len() + 1 == rows(layout@.take(i as int)).len(),
            current == rows(layout@.take(i as int)).last().len(),
            forall|j: int|
                0 <= j < lengths@.len() ==> lengths@[j] == rows(layout@.take(i as int))[j].len(),
    {
        proof {
            let prefix = layout@.take(i as int + 1);
            assert(prefix.drop_last() =~= layout@.take(i as int));
        }
        if c == '/' {
            lengths.push(current);
            current = 0;
        } else {
            current = current + 1;
        }
        i = i + 1;
    }
    proof {
        assert(layout@.take(i as int) =~= layout@);
    }
    lengths.push(current);
    lengths
}

/// The board size that a layout implies: `(rows + 1) / 2`, rounded down,
/// where `rows` is the number of its `/`-separated rows.
pub fn infer_board_size(layout: &str) -> (size: usize)
    ensures
        size == board_size(layout@),
        size >= 1,
{
    let lengths: Vec<usize> = row_lengths(layout);
    let count: usize = lengths.len();
    proof {
        lemma_rows_nonempty(layout@);
    }
    // `count` is at least one, so this is `(count + 1) / 2` without the
    // addition that could leave the machine's range.
    (count - 1) / 2 + 1
}

/// What resolving (`row`, `col`) against a layout gives: the cell's linear
/// index and the implied board size if the cell exists; else the row's
/// bounds error if the row is out of bounds, else the column's.
pub open spec fn resolve(s: Seq<char>, row: usize, col: usize) -> Result<CellIndex, ResolveError> {
    if row >= row_count(s) {
        Err(ResolveError::RowOutOfBounds { row, rows: row_count(s) as usize })
    } else if col >= row_len(s, row as int) {
        Err(ResolveError::ColOutOfBounds { col, row_len: row_len(s, row as int) as usize })
    } else {
        Ok(
            CellIndex {
                index: linear_index(s, row as int, col as int) as usize,
                board_size: board_size(s) as usize,
            },
        )
    }
}

/// Resolution succeeds exactly on the cells of the layout, and there with
/// the number of cells of the rows before the cell's row plus its column,
/// which lies below the total cell count. Everywhere else it fails with a
/// bounds error, never with a coordinate.
pub proof fn lemma_resolve_bounds(s: Seq<char>, row: usize, col: usize)
    requires
        s.len() <= usize::MAX,
    ensures
        resolve(s, row, col) is Ok <==> in_bounds(s, row as int, col as int),
        resolve(s, row, col) matches Ok(cell) ==> cell.index == cells_before(s, row as int) + col
            && cell.index < total_cells(s) && cell.board_size == (row_count(s) + 1) / 2,
        resolve(s, row, col) matches Err(error) ==> error is RowOutOfBounds
            || error is ColOutOfBounds,
{
    lemma_cells_and_separators(s);
    if in_bounds(s, row as int, col as int) {
        lemma_index_below_total(s, row as int, col as int);
    }
}

/// Resolves the cell at (`row`, `col`) of a layout, both counted from zero
/// and `col` counted within its row.
///
/// Succeeds exactly on the cells of the layout, with the number of cells
/// that precede the cell in row-major order and the implied board size.
/// Otherwise the row is reported if it is out of bounds, else the column.
/// The closing range check on the index never fails.
pub fn row_col_to_coords(layout: &str, row: usize, col: usize) -> (res: Result<
    CellIndex,
    ResolveError,
>)
    ensures
        res == resolve(layout@, row, col),
        res is Ok <==> in_bounds(layout@, row as int, col as int),
        res matches Ok(cell) ==> cell.index == linear_index(layout@, row as int, col as int)
            && cell.board_size == board_size(layout@),
{
    let lengths: Vec<usize> = row_lengths(layout);
    let count: usize = lengths.len();

    if row >= count {
        return Err(ResolveError::RowOutOfBounds { row, rows: count });
    }
    let length: usize = lengths[row];
    if col >= length {
        return Err(ResolveError::ColOutOfBounds { col, row_len: length });
    }
    let bound: usize = layout.unicode_len();
    proof {
        lemma_index_below_total(layout@, row as int, col as int);
    }

    let mut index: usize = 0;
    let mut r: usize = 0;
    while r < row
        invariant
            r <= row < count,
            count == rows(layout@).len(),
            index == cells_in(rows(layout@), r as int),
            cells_in(rows(layout@), row as int) <= bound,
            lengths@.len() == count,
            forall|i: int| 0 <= i < lengths@.len() ==> lengths@[i] == rows(layout@)[i].len(),
        decreases row - r,
    {
        proof {
            lemma_cells_in_monotonic(rows(layout@), r as int + 1, row as int);
        }
        index = index + lengths[r];
        r = r + 1;
    }
    index = index + col;

    let size: usize = (count - 1) / 2 + 1;

    let mut total: usize = 0;
    let mut t: usize = 0;
    while t < count
        invariant
            t <= count,
            count == rows(layout@).len(),
            total == cells_in(rows(layout@), t as int),
            cells_in(rows(layout@), count as int) <= bound,
            lengths@.len() == count,
            forall|i: int| 0 <= i < lengths@.len() ==> lengths@[i] == rows(layout@)[i].len(),
        decreases count - t,
    {
        proof {
            lemma_cells_in_monotonic(rows(layout@), t as int + 1, count as int);
        }
        total = total + lengths[t];
        t = t + 1;
    }
    if index >= total {
        return Err(ResolveError::InvalidConversion);
    }
    Ok(CellIndex { index, board_size: size })
}

} // verus!

//! A `grid_line` event: a run of character cells drawn into one row of a
//! grid, starting at a given column.

use vstd::prelude::*;
use crate::character::{CharView, Character, has_i64_at, i64_at_or, spec_character, spec_from_val_highlight};
use crate::errors::BridgeErrors;
use crate::value::Value;

verus! {

/// The model of a grid line: grid, row, first column, and the cells.
pub type GridLineView = (i64, i64, i64, Seq<CharView>);

/// The cells that one `grid_line` event draws: `content` goes into row `row`
/// of grid `grid`, from column `col_start` on.
#[derive(Debug, PartialEq)]
pub struct GridLine {
    pub grid: i64,
    pub row: i64,
    pub col_start: i64,
    pub content: Vec<Character>,
}

impl View for GridLine {
    type V = GridLineView;

    open spec fn view(&self) -> GridLineView {
        (self.grid, self.row, self.col_start, self.content@.map_values(|c: Character| c@))
    }
}

/// The `i64` at index `i` of `arr`, if there is one.
pub open spec fn i64_at(arr: Seq<Value>, i: int) -> Option<i64> {
    if 0 <= i < arr.len() {
        arr[i].i64_view()
    } else {
        None
    }
}

/// The cells read from the first `n` character values of `chars`. The first
/// must carry its own highlight id; each later one without a highlight id
/// takes that of the cell before it.
pub open spec fn spec_cells(chars: Seq<Value>, n: nat) -> Result<Seq<CharView>, BridgeErrors>
    decreases n,
{
    if n == 0 {
        Ok(seq![])
    } else if n == 1 {
        match spec_character(chars[0]) {
            Ok(c) => Ok(seq![c]),
            Err(_) => Err(BridgeErrors::ConversionError),
        }
    } else {
        match spec_cells(chars, (n - 1) as nat) {
            Ok(cs) => match spec_from_val_highlight(chars[n - 1], cs.last().1) {
                Ok(c) => Ok(cs.push(c)),
                Err(_) => Err(BridgeErrors::ConversionError),
            },
            Err(_) => Err(BridgeErrors::ConversionError),
        }
    }
}

/// A grid line read from `[grid, row, col_start, [cell, ...], ...]`.
pub open spec fn spec_grid_line(value: Value) -> Result<GridLineView, BridgeErrors> {
    match value.array_view() {
        Some(arr) => match (i64_at(arr, 0), i64_at(arr, 1), i64_at(arr, 2)) {
            (Some(grid), Some(row), Some(col_start)) => if arr.len() > 3 {
                match arr[3].array_view() {
                    Some(chars) => match spec_cells(chars, chars.len()) {
                        Ok(cells) => Ok((grid, row, col_start, cells)),
                        Err(_) => Err(BridgeErrors::ConversionError),
                    },
                    None => Err(BridgeErrors::ConversionError),
                }
            } else {
                Err(BridgeErrors::ConversionError)
            },
            _ => Err(BridgeErrors::ConversionError),
        },
        None => Err(BridgeErrors::ConversionError),
    }
}

/// The model of a parse result.
pub open spec fn grid_line_result_view(r: Result<GridLine, BridgeErrors>) -> Result<GridLineView, BridgeErrors> {
    match r {
        Ok(g) => Ok(g@),
        Err(e) => Err(e),
    }
}

/// A successful read of `n` cells yields exactly `n` of them.
pub proof fn lemma_cells_len(chars: Seq<Value>, n: nat)
    ensures
        spec_cells(chars, n) matches Ok(cs) ==> cs.len() == n,
    decreases n,
{
    if n > 1 {
        lemma_cells_len(chars, (n - 1) as nat);
    }
}

/// Once reading the first `n` cells fails, reading more of them fails too.
pub proof fn lemma_cells_err_persists(chars: Seq<Value>, n: nat, m: nat)
    requires
        n <= m,
        spec_cells(chars, n) is Err,
    ensures
        spec_cells(chars, m) is Err,
    decreases m,
{
    if m > n {
        lemma_cells_err_persists(chars, n, (m - 1) as nat);
        assert(m > 1);
    }
}

/// Each cell read from the first `n` character values comes from the value
/// at its own index: the first reads as a first character, and each later
/// one reads with the highlight id of the cell before it offered.
pub proof fn lemma_cells_elements(chars: Seq<Value>, n: nat)
    ensures
        spec_cells(chars, n) matches Ok(cs) ==> {
            &&& cs.len() == n
            &&& n > 0 ==> spec_character(chars[0]) == Ok::<CharView, BridgeErrors>(cs[0])
            &&& forall|i: int|
                0 < i < n ==> spec_from_val_highlight(chars[i], cs[i - 1].1) == Ok::<
                    CharView,
                    BridgeErrors,
                >(#[trigger] cs[i])
        },
    decreases n,
{
    if n > 1 {
        lemma_cells_elements(chars, (n - 1) as nat);
        lemma_cells_len(chars, (n - 1) as nat);
    }
}

/// A grid line that reads has one cell per character value, in order; the
/// first value carries its highlight id, and a later value without one
/// takes the highlight id of the cell before it.
pub proof fn lemma_grid_line_cells(value: Value)
    requires
        spec_grid_line(value) is Ok,
    ensures
        value.array_view() is Some,
        value.array_view().unwrap().len() >= 4,
        value.array_view().unwrap()[3].array_view() is Some,
        ({
            let g = spec_grid_line(value).unwrap();
            let arr = value.array_view().unwrap();
            let chars = arr[3].array_view().unwrap();
            &&& Some(g.0) == arr[0].i64_view()
            &&& Some(g.1) == arr[1].i64_view()
            &&& Some(g.2) == arr[2].i64_view()
            &&& g.3.len() == chars.len()
            &&& forall|i: int|
                0 <= i < chars.len() ==> (#[trigger] g.3[i]).2 == i64_at_or(
                    chars[i].array_view().unwrap(),
                    2,
                    1,
                )
            &&& chars.len() > 0 ==> has_i64_at(chars[0].array_view().unwrap(), 1)
                && g.3[0].1 == chars[0].array_view().unwrap()[1].i64_view().unwrap()
            &&& forall|i: int|
                0 < i < chars.len() ==> (#[trigger] g.3[i]).1 == i64_at_or(
                    chars[i].array_view().unwrap(),
                    1,
                    g.3[i - 1].1,
                )
            &&& forall|i: int|
                0 <= i < chars.len() ==> Some((#[trigger] g.3[i]).0) == chars[i].array_view().unwrap()[0].str_view()
        }),
{
    let chars = value.array_view().unwrap()[3].array_view().unwrap();
    lemma_cells_elements(chars, chars.len());
    let g = spec_grid_line(value).unwrap();
    assert forall|i: int| 0 <= i < chars.len() implies Some((#[trigger] g.3[i]).0)
        == chars[i].array_view().unwrap()[0].str_view() && g.3[i].2 == i64_at_or(
        chars[i].array_view().unwrap(),
        2,
        1,
    ) by {
        if i > 0 {
            assert(spec_from_val_highlight(chars[i], g.3[i - 1].1) == Ok::<CharView, BridgeErrors>(g.3[i]));
        }
    }
}

/// Whether `v` is a readable cell: an array whose first element is a UTF-8
/// string.
pub open spec fn readable_cell(v: Value) -> bool {
    v.array_view() matches Some(a) && a.len() > 0 && a[0].str_view() is Some
}

/// Whether `v` is a readable first cell: a readable cell whose element 1 is
/// an `i64` highlight id.
pub open spec fn readable_first_cell(v: Value) -> bool {
    readable_cell(v) && has_i64_at(v.array_view().unwrap(), 1)
}

/// Cells that are each readable (the first with its own highlight id) read,
/// however many there are.
pub proof fn lemma_cells_read(chars: Seq<Value>, n: nat)
    requires
        n <= chars.len(),
        n > 0 ==> readable_first_cell(chars[0]),
        forall|i: int| 0 < i < n ==> readable_cell(#[trigger] chars[i]),
    ensures
        spec_cells(chars, n) is Ok,
    decreases n,
{
    if n > 1 {
        lemma_cells_read(chars, (n - 1) as nat);
        assert(readable_cell(chars[n - 1]));
    }
}

/// A value `[grid, row, col_start, cells, ...]` whose first three elements
/// are `i64`s and whose cells are all readable (the first with its own
/// highlight id) reads as a grid line, whatever the number of cells, with
/// those grid, row and column and one cell per cell value.
pub proof fn lemma_grid_line_reads(value: Value)
    requires
        value.array_view() is Some,
        ({
            let arr = value.array_view().unwrap();
            &&& arr.len() >= 4
            &&& arr[0].i64_view() is Some
            &&& arr[1].i64_view() is Some
            &&& arr[2].i64_view() is Some
            &&& arr[3].array_view() is Some
        }),
        ({
            let chars = value.array_view().unwrap()[3].array_view().unwrap();
            &&& chars.len() > 0 ==> readable_first_cell(chars[0])
            &&& forall|i: int| 0 < i < chars.len() ==> readable_cell(#[trigger] chars[i])
        }),
    ensures
        spec_grid_line(value) matches Ok(g) && ({
            let arr = value.array_view().unwrap();
            &&& Some(g.0) == arr[0].i64_view()
            &&& Some(g.1) == arr[1].i64_view()
            &&& Some(g.2) == arr[2].i64_view()
            &&& g.3.len() == arr[3].array_view().unwrap().len()
        }),
{
    let arr = value.array_view().unwrap();
    let chars = arr[3].array_view().unwrap();
    lemma_cells_read(chars, chars.len());
    lemma_cells_len(chars, chars.len());
}

impl GridLine {
    /// Reads a `grid_line` event. A value that is not shaped as one gives
    /// `ConversionError`.
    pub fn try_from(value: &Value) -> (r: Result<GridLine, BridgeErrors>)
        ensures
            grid_line_result_view(r) == spec_grid_line(*value),
    {
        let arr = match value.as_array() {
            Some(arr) => arr,
            None => return Err(BridgeErrors::ConversionError),
        };
        if arr.len() < 4 {
            return Err(BridgeErrors::ConversionError);
        }
        let grid = match arr[0].as_i64() {
            Some(n) => n,
            None => return Err(BridgeErrors::ConversionError),
        };
        let row = match arr[1].as_i64() {
            Some(n) => n,
            None => return Err(BridgeErrors::ConversionError),
        };
        let col_start = match arr[2].as_i64() {
            Some(n) => n,
            None => return Err(BridgeErrors::ConversionError),
        };
        let chars = match arr[3].as_array() {
            Some(chars) => chars,
            None => return Err(BridgeErrors::ConversionError),
        };
        let mut content: Vec<Character> = Vec::new();
        if chars.len() == 0 {
            assert(content@.map_values(|c: Character| c@) =~= seq![]);
            return Ok(GridLine { grid, row, col_start, content });
        }
        // The first character must carry its own highlight id.
        let first = match Character::try_from(&chars[0]) {
            Ok(c) => c,
            Err(_) => {
                proof {
                    lemma_cells_err_persists(chars@, 1, chars@.len());
                }
                return Err(BridgeErrors::ConversionError);
            },
        };
        content.push(first);
        assert(content@.map_values(|c: Character| c@) =~= seq![first@]);
        let mut i: usize = 1;
        while i < chars.len()
            invariant
                1 <= i <= chars.len(),
                value.array_view() == Some(arr@),
                arr@.len() >= 4,
                i64_at(arr@, 0) == Some(grid),
                i64_at(arr@, 1) == Some(row),
                i64_at(arr@, 2) == Some(col_start),
                arr@[3].array_view() == Some(chars@),
                content@.len() == i,
                spec_cells(chars@, i as nat) == Ok::<Seq<CharView>, BridgeErrors>(
                    content@.map_values(|c: Character| c@),
                ),
            decreases chars.len() - i,
        {
            let previous = content[i - 1].highlight();
            match Character::from_val_highlight(&chars[i], previous) {
                Ok(c) => {
                    let ghost before = content@.map_values(|c: Character| c@);
                    content.push(c);
                    assert(content@.map_values(|c: Character| c@) =~= before.push(c@));
                },
                Err(_) => {
                    proof {
                        let cells = content@.map_values(|c: Character| c@);
                        assert(cells.last().1 == previous);
                        assert(spec_cells(chars@, (i + 1) as nat) is Err);
                        lemma_cells_err_persists(chars@, (i + 1) as nat, chars@.len());
                    }
                    return Err(BridgeErrors::ConversionError);
                },
            }
            i = i + 1;
        }
        Ok(GridLine { grid, row, col_start, content })
    }
}

} // verus!

//! The row encoder: reshapes a computed row (cells, highlight color, font)
//! into the wire row the rendering frontend consumes. A pure structural
//! reshape — no reordering, filtering or validation.

use vstd::prelude::*;

verus! {

/// One rendered value within a row, with a right-to-left text hint.
pub struct Cell {
    pub text: String,
    pub is_rtl: bool,
}

/// The mathematical value of a [`Cell`] (and of a [`WireCell`]).
pub ghost struct CellV {
    pub text: Seq<char>,
    pub is_rtl: bool,
}

impl View for Cell {
    type V = CellV;

    open spec fn view(&self) -> CellV {
        CellV { text: self.text@, is_rtl: self.is_rtl }
    }
}

/// The row-wide highlight state; mutually exclusive, chosen upstream.
#[derive(Clone, Copy, Debug, PartialEq, Eq, Structural)]
pub enum Color {
    Default,
    Marked,
    Suspended,
    FlagRed,
    FlagOrange,
    FlagGreen,
    FlagBlue,
}

/// The font applied to a whole row.
pub struct FontSpec {
    pub name: String,
    pub size: u32,
}

/// A computed row, as produced by the query layer: cells already in the
/// active column order, one color, one font.
pub struct Row {
    pub cells: Vec<Cell>,
    pub color: Color,
    pub font: FontSpec,
}

/// One cell in the wire shape.
pub struct WireCell {
    pub text: String,
    pub is_rtl: bool,
}

impl View for WireCell {
    type V = CellV;

    open spec fn view(&self) -> CellV {
        CellV { text: self.text@, is_rtl: self.is_rtl }
    }
}

/// A row in the wire shape the frontend consumes.
pub struct BrowserRow {
    pub cells: Vec<WireCell>,
    pub color: i32,
    pub font_name: String,
    pub font_size: u32,
}

/// The views of a sequence of cells.
pub open spec fn cell_views_of(s: Seq<Cell>) -> Seq<CellV> {
    s.map_values(|c: Cell| c@)
}

/// The views of a sequence of wire cells.
pub open spec fn wire_cell_views_of(s: Seq<WireCell>) -> Seq<CellV> {
    s.map_values(|c: WireCell| c@)
}

/// The wire code of each color, in declaration order from zero.
pub open spec fn color_code_spec(c: Color) -> i32 {
    match c {
        Color::Default => 0,
        Color::Marked => 1,
        Color::Suspended => 2,
        Color::FlagRed => 3,
        Color::FlagOrange => 4,
        Color::FlagGreen => 5,
        Color::FlagBlue => 6,
    }
}

/// The wire code of a row color.
pub fn color_code(c: Color) -> (r: i32)
    ensures
        r == color_code_spec(c),
{
    match c {
        Color::Default => 0,
        Color::Marked => 1,
        Color::Suspended => 2,
        Color::FlagRed => 3,
        Color::FlagOrange => 4,
        Color::FlagGreen => 5,
        Color::FlagBlue => 6,
    }
}

/// Reshapes one cell into its wire form, value for value.
pub fn encode_cell(cell: Cell) -> (r: WireCell)
    ensures
        r@ == cell@,
{
    WireCell { text: cell.text, is_rtl: cell.is_rtl }
}

/// Encodes a computed row into the wire row: cells kept in order and count,
/// the color as its wire code, the font flattened into name and size.
pub fn encode_row(row: Row) -> (r: BrowserRow)
    ensures
        r.cells@.len() == row.cells@.len(),
        wire_cell_views_of(r.cells@) == cell_views_of(row.cells@),
        r.color == color_code_spec(row.color),
        r.font_name@ == row.font.name@,
        r.font_size == row.font.size,
{
    let mut cells: Vec<WireCell> = Vec::new();
    let mut source = row.cells;
    let ghost all = source@;
    // Drain front to back so each cell is moved, not cloned.
    while source.len() > 0
        invariant
            cells@.len() + source@.len() == all.len(),
            forall|j: int| 0 <= j < cells@.len() ==> cells@[j]@ == all[j]@,
            source@ == all.subrange(cells@.len() as int, all.len() as int),
        decreases source@.len(),
    {
        let ghost done = cells@.len() as int;
        let cell = source.remove(0);
        cells.push(encode_cell(cell));
        proof {
            assert(source@ =~= all.subrange(done + 1, all.len() as int));
        }
    }
    proof {
        assert(wire_cell_views_of(cells@) =~= cell_views_of(all));
    }
    BrowserRow {
        cells,
        color: color_code(row.color),
        font_name: row.font.name,
        font_size: row.font.size,
    }
}

/// Recovers the cell sequence from a wire row, value for value: the inverse
/// of the cell part of [`encode_row`].
pub fn decode_cells(row: BrowserRow) -> (r: Vec<Cell>)
    ensures
        r@.len() == row.cells@.len(),
        cell_views_of(r@) == wire_cell_views_of(row.cells@),
{
    let mut cells: Vec<Cell> = Vec::new();
    let mut source = row.cells;
    let ghost all = source@;
    while source.len() > 0
        invariant
            cells@.len() + source@.len() == all.len(),
            forall|j: int| 0 <= j < cells@.len() ==> cells@[j]@ == all[j]@,
            source@ == all.subrange(cells@.len() as int, all.len() as int),
        decreases source@.len(),
    {
        let ghost done = cells@.len() as int;
        let cell = source.remove(0);
        cells.push(Cell { text: cell.text, is_rtl: cell.is_rtl });
        proof {
            assert(source@ =~= all.subrange(done + 1, all.len() as int));
        }
    }
    proof {
        assert(cell_views_of(cells@) =~= wire_cell_views_of(all));
    }
    cells
}

} // verus!

//! CSS grid layouts for the plot area of the user interface.

use vstd::prelude::*;

verus! {

/// One cell of a grid layout: the HTML element `id` spans rows `row..=row_max`
/// (a single row when `row_max` is 0) and columns `col..=col_max` likewise.
#[derive(Debug)]
pub struct GridElement {
    id: String,
    row: u32,
    row_max: u32,
    col: u32,
    col_max: u32,
}

/// What a grid element holds.
pub struct GridElementView {
    pub id: Seq<char>,
    pub row: u32,
    pub row_max: u32,
    pub col: u32,
    pub col_max: u32,
}

impl View for GridElement {
    type V = GridElementView;

    closed spec fn view(&self) -> GridElementView {
        GridElementView {
            id: self.id@,
            row: self.row,
            row_max: self.row_max,
            col: self.col,
            col_max: self.col_max,
        }
    }
}

/// A grid of `columns` columns and the elements placed in it
/// (<https://developer.mozilla.org/en-US/docs/Web/CSS/CSS_Grid_Layout>).
#[derive(Debug)]
pub struct GridLayout {
    columns: u32,
    elements: Vec<GridElement>,
}

/// What a grid layout holds: its number of columns and its elements in the order added.
pub struct GridLayoutView {
    pub columns: u32,
    pub elements: Seq<GridElementView>,
}

impl GridElement {
    /// The element `id`, spanning rows `row..=row_max` and columns `col..=col_max`
    /// (an end of 0 stands for a single line).
    pub fn new(id: String, row: u32, row_max: u32, col: u32, col_max: u32) -> (r: Self)
        ensures
            r@ == (GridElementView { id: id@, row, row_max, col, col_max }),
    {
        GridElement { id, row, row_max, col, col_max }
    }

    /// The id of the HTML element.
    pub fn id(&self) -> (r: &String)
        ensures
            r@ == self@.id,
    {
        &self.id
    }

    /// The first row.
    pub fn row(&self) -> (r: u32)
        ensures
            r == self@.row,
    {
        self.row
    }

    /// The last row, or 0 for a single row.
    pub fn row_max(&self) -> (r: u32)
        ensures
            r == self@.row_max,
    {
        self.row_max
    }

    /// The first column.
    pub fn col(&self) -> (r: u32)
        ensures
            r == self@.col,
    {
        self.col
    }

    /// The last column, or 0 for a single column.
    pub fn col_max(&self) -> (r: u32)
        ensures
            r == self@.col_max,
    {
        self.col_max
    }
}

impl View for GridLayout {
    type V = GridLayoutView;

    closed spec fn view(&self) -> GridLayoutView {
        GridLayoutView {
            columns: self.columns,
            elements: self.elements@.map_values(|e: GridElement| e@),
        }
    }
}

/// The row placement of a grid element.
#[derive(Debug)]
pub struct Row<T>(pub T);

/// The column placement of a grid element.
#[derive(Debug)]
pub struct Col<T>(pub T);

/// A placement along one axis: a start and an end, the end 0 for a single line.
pub trait RowOrCol {
    /// The start and end that this placement stands for.
    spec fn spec_value(&self) -> (u32, u32);

    /// The start and end of this placement.
    fn value(&self) -> (r: (u32, u32))
        ensures
            r == self.spec_value(),
    ;
}

impl RowOrCol for u32 {
    /// A single line `n` is the span `(n, 0)`.
    open spec fn spec_value(&self) -> (u32, u32) {
        (*self, 0)
    }

    fn value(&self) -> (r: (u32, u32)) {
        (*self, 0)
    }
}

impl RowOrCol for (u32, u32) {
    /// A pair is the span itself.
    open spec fn spec_value(&self) -> (u32, u32) {
        *self
    }

    fn value(&self) -> (r: (u32, u32)) {
        *self
    }
}

impl<T: RowOrCol> Row<T> {
    /// The start and end row.
    pub fn value(&self) -> (r: (u32, u32))
        ensures
            r == self.0.spec_value(),
    {
        self.0.value()
    }
}

impl<T: RowOrCol> Col<T> {
    /// The start and end column.
    pub fn value(&self) -> (r: (u32, u32))
        ensures
            r == self.0.spec_value(),
    {
        self.0.value()
    }
}

/// The element that `add` places for `id` at `row` and `col`.
pub open spec fn placed<T1: RowOrCol, T2: RowOrCol>(
    id: Seq<char>,
    row: Row<T1>,
    col: Col<T2>,
) -> GridElementView {
    GridElementView {
        id,
        row: row.0.spec_value().0,
        row_max: row.0.spec_value().1,
        col: col.0.spec_value().0,
        col_max: col.0.spec_value().1,
    }
}

/// A single line `n` is placed at `n` with end 0, and a pair `(start, end)` is placed at
/// exactly that span: `add` stores the given lines unchanged.
pub proof fn law_placements_are_given_lines(id: Seq<char>, n: u32, p: (u32, u32))
    ensures
        n.spec_value() == (n, 0u32),
        p.spec_value() == p,
        placed(id, Row(n), Col(p)).row == n,
        placed(id, Row(n), Col(p)).row_max == 0,
        placed(id, Row(p), Col(n)).row == p.0,
        placed(id, Row(p), Col(n)).row_max == p.1,
        placed(id, Row(n), Col(p)).col == p.0,
        placed(id, Row(n), Col(p)).col_max == p.1,
        placed(id, Row(p), Col(n)).col == n,
        placed(id, Row(p), Col(n)).col_max == 0,
        placed(id, Row(n), Col(p)).id == id,
{
}

impl GridLayout {
    /// An empty layout of `columns` columns.
    pub fn new(columns: u32) -> (r: Self)
        ensures
            r@.columns == columns,
            r@.elements == Seq::<GridElementView>::empty(),
    {
        let r = Self { columns, elements: Vec::new() };
        proof {
            assert(r@.elements =~= Seq::<GridElementView>::empty());
        }
        r
    }

    /// The layout of `columns` columns holding `elements`, in that order.
    pub fn from_parts(columns: u32, elements: Vec<GridElement>) -> (r: Self)
        ensures
            r@.columns == columns,
            r@.elements == elements@.map_values(|e: GridElement| e@),
    {
        GridLayout { columns, elements }
    }

    /// The number of columns.
    pub fn columns(&self) -> (r: u32)
        ensures
            r == self@.columns,
    {
        self.columns
    }

    /// The elements, in the order added.
    pub fn elements(&self) -> (r: &Vec<GridElement>)
        ensures
            r@.map_values(|e: GridElement| e@) == self@.elements,
    {
        &self.elements
    }

    /// The layout with one more element, `id`, placed at `row` and `col`.
    pub fn add<T1, T2>(self, id: String, row: Row<T1>, col: Col<T2>) -> (r: Self) where
        T1: RowOrCol,
        T2: RowOrCol,

        ensures
            r@.columns == self@.columns,
            r@.elements == self@.elements.push(placed(id@, row, col)),
    {
        let mut layout = self;
        let (row_start, row_max) = row.value();
        let (col_start, col_max) = col.value();
        layout.elements.push(
            GridElement { id, row: row_start, row_max, col: col_start, col_max },
        );
        proof {
            assert(layout@.elements =~= self@.elements.push(placed(id@, row, col)));
        }
        layout
    }
}

} // verus!

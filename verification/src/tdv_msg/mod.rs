//! Messages between the client, the server and the user interface.
//!
//! The values of a data frame are of the type parameter `V`; the programs
//! around the library use `f64`.

pub mod grid;

use vstd::prelude::*;
use crate::columns::{column_position, find_column};
use crate::store::NamedFrame;

pub use grid::{Col, GridElement, GridElementView, GridLayout, GridLayoutView, Row, RowOrCol};

verus! {

/// A message sent over a websocket.
#[derive(Debug)]
pub enum WsMessage<V> {
    /// Send a data frame to the user interface.
    DataFrame(DataFrame<V>),
    /// Send a command to the user interface.
    Command(Command),
    /// Ask the user interface to open a websocket to the client.
    Connect(Connect),
    /// Ask a peer whether it is the user interface or the client.
    WhoAreYou,
    /// The user interface's reply.
    IAmUI,
    /// The client's reply.
    IAmClient,
    /// A message to ignore.
    Ignore,
}

/// A data frame like those of `pandas`: named columns of values over a row index.
///
/// A well-formed frame has `data.len() == columns.len()` and
/// `data[i].len() == index.len()` for every column `i`.
#[derive(Debug)]
pub struct DataFrame<V> {
    /// The name of the frame.
    pub name: String,
    /// The names of the columns.
    pub columns: Vec<String>,
    /// The index of the rows.
    pub index: Vec<i64>,
    /// The columns' values, one vector per column.
    pub data: Vec<Vec<V>>,
}

/// The frame is well formed, as its documentation asks.
pub open spec fn frame_well_formed<V>(df: &DataFrame<V>) -> bool {
    &&& df.data@.len() == df.columns@.len()
    &&& forall|i: int| 0 <= i < df.data@.len() ==> #[trigger] df.data@[i]@.len() == df.index@.len()
}

/// Looking `name` up in the frame cannot step past its data: the first column of that name,
/// if any, has a vector of values.
pub open spec fn column_in_data<V>(df: &DataFrame<V>, name: Seq<char>) -> bool {
    column_position(df.columns@, name) matches Some(i) ==> i < df.data@.len()
}

/// In a well-formed frame every column has its values, of one per row: `get_col` may be
/// asked for any name, and what it finds has the length of the index.
pub proof fn law_well_formed_columns<V>(df: &DataFrame<V>, name: Seq<char>)
    requires
        frame_well_formed(df),
    ensures
        column_in_data(df, name),
        column_position(df.columns@, name) matches Some(i) ==> df.data@[i]@.len() == df.index@.len(),
{
    if let Some(i) = column_position(df.columns@, name) {
        let k = choose|k: int| crate::columns::names_column(df.columns@, name, k);
        assert(i == k);
        assert(0 <= i < df.columns@.len());
    }
}

impl<V> DataFrame<V> {
    /// The values of the first column named `col_name`, or `None` when no column has that name.
    pub fn get_col(&self, col_name: &String) -> (r: Option<&Vec<V>>)
        requires
            column_in_data(self, col_name@),
        ensures
            match column_position(self.columns@, col_name@) {
                Some(i) => r == Some(&self.data@[i]),
                None => r is None,
            },
    {
        match find_column(&self.columns, col_name) {
            Some(i) => Some(&self.data[i]),
            None => None,
        }
    }
}

impl<V> NamedFrame for DataFrame<V> {
    /// A data frame is kept under its name.
    open spec fn frame_name(&self) -> Seq<char> {
        self.name@
    }

    fn name(&self) -> (r: &String) {
        &self.name
    }
}

/// A command for the user interface.
#[derive(Debug)]
pub enum Command {
    /// Plot data with Plotly.
    Plot(PlotParam),
    /// Lay out the plot area as a grid.
    SetGridLayout(GridLayout),
}

/// A request to open a websocket from the user interface to the client.
#[derive(Debug)]
pub struct Connect {
    /// The client's address, e.g. `0.0.0.0:9002`.
    pub address: String,
}

/// The parameters of a plot.
#[derive(Debug)]
pub struct PlotParam {
    /// The HTML element in which the plot is drawn.
    pub area_name: String,
    /// The traces, after Plotly's convention of data.
    pub traces: Vec<Trace>,
}

impl PlotParam {
    /// The websocket message that asks for this plot.
    pub fn into_command<V>(self) -> (r: WsMessage<V>)
        ensures
            r == WsMessage::<V>::Command(Command::Plot(self)),
    {
        WsMessage::Command(Command::Plot(self))
    }
}

impl GridLayout {
    /// The websocket message that sets this layout.
    pub fn into_command<V>(self) -> (r: WsMessage<V>)
        ensures
            r == WsMessage::<V>::Command(Command::SetGridLayout(self)),
    {
        WsMessage::Command(Command::SetGridLayout(self))
    }
}

/// A trace, after Plotly's convention of data.
#[derive(Debug)]
pub enum Trace {
    /// A scatter plot.
    Scatter(Scatter),
}

/// The parameters of a scatter plot.
#[derive(Debug)]
pub struct Scatter {
    /// The name of a data frame already sent to the user interface.
    pub df_name: String,
    /// The column on the x axis.
    pub col_name_x: String,
    /// The column on the y axis.
    pub col_name_y: String,
}

} // verus!

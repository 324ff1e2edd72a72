//! The messages of the first user interface.
//!
//! The values of a data frame are of the type parameter `V`; the programs
//! around the library use `f64`.

use vstd::prelude::*;
use crate::columns::{column_position, find_column};
use crate::store::NamedFrame;

verus! {

/// A message sent over a websocket.
#[derive(Debug)]
pub enum WsMessage<V> {
    /// Send a data frame to the user interface.
    DataFrame(DataFrame<V>),
    /// Send a command to the user interface.
    Command(Command),
    /// A message to ignore.
    Ignore,
}

/// A data frame: named columns of values over a row index.
///
/// A well-formed frame has `data.len() == columns.len()` and
/// `data[i].len() == index.len()` for every column `i`.
#[derive(Debug)]
pub struct DataFrame<V> {
    /// The name of the frame.
    pub name: String,
    /// The names of the columns.
    pub columns: Vec<String>,
    /// The index of the rows.
    pub index: Vec<i64>,
    /// The columns' values, one vector per column.
    pub data: Vec<Vec<V>>,
}

/// The frame is well formed, as its documentation asks.
pub open spec fn frame_well_formed<V>(df: &DataFrame<V>) -> bool {
    &&& df.data@.len() == df.columns@.len()
    &&& forall|i: int| 0 <= i < df.data@.len() ==> #[trigger] df.data@[i]@.len() == df.index@.len()
}

/// Looking `name` up in the frame cannot step past its data: the first column of that name,
/// if any, has a vector of values.
pub open spec fn column_in_data<V>(df: &DataFrame<V>, name: Seq<char>) -> bool {
    column_position(df.columns@, name) matches Some(i) ==> i < df.data@.len()
}

/// In a well-formed frame every column has its values, of one per row: `get_col` may be
/// asked for any name, and what it finds has the length of the index.
pub proof fn law_well_formed_columns<V>(df: &DataFrame<V>, name: Seq<char>)
    requires
        frame_well_formed(df),
    ensures
        column_in_data(df, name),
        column_position(df.columns@, name) matches Some(i) ==> df.data@[i]@.len() == df.index@.len(),
{
    if let Some(i) = column_position(df.columns@, name) {
        let k = choose|k: int| crate::columns::names_column(df.columns@, name, k);
        assert(i == k);
        assert(0 <= i < df.columns@.len());
    }
}

impl<V> DataFrame<V> {
    /// The values of the first column named `col_name`, or `None` when no column has that name.
    pub fn get_col(&self, col_name: &String) -> (r: Option<&Vec<V>>)
        requires
            column_in_data(self, col_name@),
        ensures
            match column_position(self.columns@, col_name@) {
                Some(i) => r == Some(&self.data@[i]),
                None => r is None,
            },
    {
        match find_column(&self.columns, col_name) {
            Some(i) => Some(&self.data[i]),
            None => None,
        }
    }
}

impl<V> NamedFrame for DataFrame<V> {
    /// A data frame is kept under its name.
    open spec fn frame_name(&self) -> Seq<char> {
        self.name@
    }

    fn name(&self) -> (r: &String) {
        &self.name
    }
}

/// A command for the user interface.
#[derive(Debug)]
pub enum Command {
    /// Plot two columns of a frame against each other.
    Plot(PlotParam),
    /// A scatter plot (not carried out).
    ScatterPlot,
}

/// The parameters of a plot.
#[derive(Debug)]
pub struct PlotParam {
    /// The name of a data frame already sent.
    pub data_name: String,
    /// The HTML element in which the plot is drawn.
    pub area_name: String,
    /// The column on the x axis.
    pub col_name_x: String,
    /// The column on the y axis.
    pub col_name_y: String,
}

impl PlotParam {
    /// The websocket message that asks for this plot.
    pub fn into_wsmsg<V>(self) -> (r: WsMessage<V>)
        ensures
            r == WsMessage::<V>::Command(Command::Plot(self)),
    {
        WsMessage::Command(Command::Plot(self))
    }
}

} // verus!

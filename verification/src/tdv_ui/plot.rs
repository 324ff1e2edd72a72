//! The data of a plot: for each trace, the columns that it draws.

use vstd::prelude::*;
use crate::columns::{column_position, copy_values, find_column};
use crate::store::FrameStore;
use crate::tdv_msg::{DataFrame, PlotParam, Scatter, Trace};

verus! {

/// A scatter trace as Plotly draws it (of type `scatter`).
#[derive(Debug)]
pub struct PlotlyScatter<V> {
    /// The values on the x axis.
    pub x: Vec<V>,
    /// The values on the y axis.
    pub y: Vec<V>,
}

/// A trace as Plotly draws it.
#[derive(Debug)]
pub enum PlotlyTrace<V> {
    /// A scatter trace.
    PlotlyScatter(PlotlyScatter<V>),
}

/// The traces of a plot, in order.
#[derive(Debug)]
pub struct PlotlyData<V>(pub Vec<PlotlyTrace<V>>);

/// The frame has a column named `name` with values.
pub open spec fn has_column<V>(df: DataFrame<V>, name: Seq<char>) -> bool {
    column_position(df.columns@, name) matches Some(i) && i < df.data@.len()
}

/// In a well-formed frame, a name is plottable exactly when some column has it, whatever the
/// number of rows; and the values plotted are that column's, one per row.
pub proof fn law_found_columns_are_plottable<V>(df: DataFrame<V>, name: Seq<char>)
    requires
        crate::tdv_msg::frame_well_formed(&df),
    ensures
        has_column(df, name) <==> column_position(df.columns@, name) is Some,
        has_column(df, name) ==> column_values(df, name).len() == df.index@.len(),
{
    crate::tdv_msg::law_well_formed_columns(&df, name);
}

/// The values of the first column of `df` named `name`.
pub open spec fn column_values<V>(df: DataFrame<V>, name: Seq<char>) -> Seq<V> {
    df.data@[column_position(df.columns@, name)->0]@
}

/// The frame of a scatter trace has been received and holds both of its columns.
pub open spec fn scatter_resolvable<V>(frames: Map<Seq<char>, DataFrame<V>>, s: Scatter) -> bool {
    &&& frames.contains_key(s.df_name@)
    &&& has_column(frames[s.df_name@], s.col_name_x@)
    &&& has_column(frames[s.df_name@], s.col_name_y@)
}

/// Every trace of the plot can be drawn from `frames`.
pub open spec fn plot_resolvable<V>(frames: Map<Seq<char>, DataFrame<V>>, params: PlotParam) -> bool {
    forall|i: int|
        0 <= i < params.traces@.len() ==> match #[trigger] params.traces@[i] {
            Trace::Scatter(s) => scatter_resolvable(frames, s),
        }
}

/// `out` draws the trace `t` from `frames`.
pub open spec fn trace_plotted<V>(
    frames: Map<Seq<char>, DataFrame<V>>,
    t: Trace,
    out: PlotlyTrace<V>,
) -> bool {
    match t {
        Trace::Scatter(s) => match out {
            PlotlyTrace::PlotlyScatter(o) => {
                &&& o.x@ == column_values(frames[s.df_name@], s.col_name_x@)
                &&& o.y@ == column_values(frames[s.df_name@], s.col_name_y@)
            },
        },
    }
}

/// `out` draws the plot `params` from `frames`: one trace per trace, in order.
pub open spec fn plotted<V>(
    frames: Map<Seq<char>, DataFrame<V>>,
    params: PlotParam,
    out: PlotlyData<V>,
) -> bool {
    &&& out.0@.len() == params.traces@.len()
    &&& forall|i: int|
        0 <= i < params.traces@.len() ==> trace_plotted(frames, #[trigger] params.traces@[i], out.0@[i])
}

fn frame_has_column<V>(df: &DataFrame<V>, name: &String) -> (r: bool)
    ensures
        r == has_column(*df, name@),
{
    match find_column(&df.columns, name) {
        Some(i) => i < df.data.len(),
        None => false,
    }
}

/// Whether every trace of the plot can be drawn from the frames received.
pub fn can_plot<V>(data: &FrameStore<DataFrame<V>>, params: &PlotParam) -> (r: bool)
    ensures
        r == plot_resolvable(data.map(), *params),
{
    let mut i: usize = 0;
    while i < params.traces.len()
        invariant
            i <= params.traces@.len(),
            forall|j: int|
                0 <= j < i ==> match #[trigger] params.traces@[j] {
                    Trace::Scatter(s) => scatter_resolvable(data.map(), s),
                },
        decreases params.traces@.len() - i,
    {
        match &params.traces[i] {
            Trace::Scatter(s) => {
                match data.get(&s.df_name) {
                    Some(df) => {
                        if !frame_has_column(df, &s.col_name_x) || !frame_has_column(df, &s.col_name_y) {
                            return false;
                        }
                    },
                    None => {
                        return false;
                    },
                }
            },
        }
        i = i + 1;
    }
    true
}

/// The data of the plot `params`: for each scatter trace, the x and y columns of its frame.
pub fn plot<V: Copy>(data: &FrameStore<DataFrame<V>>, params: &PlotParam) -> (r: PlotlyData<V>)
    requires
        plot_resolvable(data.map(), *params),
    ensures
        plotted(data.map(), *params, r),
{
    let mut traces: Vec<PlotlyTrace<V>> = Vec::new();
    let mut i: usize = 0;
    while i < params.traces.len()
        invariant
            i <= params.traces@.len(),
            plot_resolvable(data.map(), *params),
            traces@.len() == i,
            forall|j: int| 0 <= j < i ==> trace_plotted(data.map(), #[trigger] params.traces@[j], traces@[j]),
        decreases params.traces@.len() - i,
    {
        let trace = match &params.traces[i] {
            Trace::Scatter(s) => {
                assert(scatter_resolvable(data.map(), *s));
                let df = data.get(&s.df_name).unwrap();
                let x = copy_values(df.get_col(&s.col_name_x).unwrap());
                let y = copy_values(df.get_col(&s.col_name_y).unwrap());
                PlotlyTrace::PlotlyScatter(PlotlyScatter { x, y })
            },
        };
        traces.push(trace);
        i = i + 1;
    }
    PlotlyData(traces)
}

} // verus!

//! The first user interface, which shows `wdview_msg` messages: what it keeps, what it
//! does with each message, and what it draws.

pub mod msg;

use vstd::prelude::*;
use crate::columns::{column_position, copy_values, find_column};
use crate::store::FrameStore;
use crate::wdview_msg::{Command, DataFrame, PlotParam, WsMessage};
use msg::ModelMessage;

verus! {

/// Two columns of a frame as Plotly draws them.
#[derive(Debug)]
pub struct PlotlyData<V> {
    /// The values on the x axis.
    pub x: Vec<V>,
    /// The values on the y axis.
    pub y: Vec<V>,
}

/// The traces of a plot, in order.
#[derive(Debug)]
pub struct PlotlyDataArray<V>(pub Vec<PlotlyData<V>>);

/// What the program around the model does after a message.
#[derive(Debug)]
pub enum UiAction<V> {
    /// Nothing.
    Nothing,
    /// Draw `data` with Plotly in the element `area_name`.
    Plot { area_name: String, data: PlotlyDataArray<V> },
}

/// The state of the user interface: the data frames received, by name, and the
/// commands received, in order.
pub struct Model<V> {
    data: FrameStore<DataFrame<V>>,
    commands: Vec<Command>,
}

/// What the model holds.
pub struct ModelView<V> {
    /// The frames received, by name.
    pub frames: Map<Seq<char>, DataFrame<V>>,
    /// The commands received, in order.
    pub commands: Seq<Command>,
}

impl<V> View for Model<V> {
    type V = ModelView<V>;

    closed spec fn view(&self) -> ModelView<V> {
        ModelView { frames: self.data.map(), commands: self.commands@ }
    }
}

/// The frame has a column named `name` with values.
pub open spec fn has_column<V>(df: DataFrame<V>, name: Seq<char>) -> bool {
    column_position(df.columns@, name) matches Some(i) && i < df.data@.len()
}

/// In a well-formed frame, a name is plottable exactly when some column has it, whatever the
/// number of rows; and the values plotted are that column's, one per row.
pub proof fn law_found_columns_are_plottable<V>(df: DataFrame<V>, name: Seq<char>)
    requires
        crate::wdview_msg::frame_well_formed(&df),
    ensures
        has_column(df, name) <==> column_position(df.columns@, name) is Some,
        has_column(df, name) ==> column_values(df, name).len() == df.index@.len(),
{
    crate::wdview_msg::law_well_formed_columns(&df, name);
}

/// The values of the first column of `df` named `name`.
pub open spec fn column_values<V>(df: DataFrame<V>, name: Seq<char>) -> Seq<V> {
    df.data@[column_position(df.columns@, name)->0]@
}

/// The frame of the plot has been received and holds both of its columns.
pub open spec fn plot_resolvable<V>(frames: Map<Seq<char>, DataFrame<V>>, p: PlotParam) -> bool {
    &&& frames.contains_key(p.data_name@)
    &&& has_column(frames[p.data_name@], p.col_name_x@)
    &&& has_column(frames[p.data_name@], p.col_name_y@)
}

/// `out` draws the plot `p` from `frames`: one trace of its two columns.
pub open spec fn plotted<V>(frames: Map<Seq<char>, DataFrame<V>>, p: PlotParam, out: PlotlyDataArray<V>) -> bool {
    &&& out.0@.len() == 1
    &&& out.0@[0].x@ == column_values(frames[p.data_name@], p.col_name_x@)
    &&& out.0@[0].y@ == column_values(frames[p.data_name@], p.col_name_y@)
}

/// The message can be processed in a model that holds `frames`.
pub open spec fn processable<V>(frames: Map<Seq<char>, DataFrame<V>>, msg: WsMessage<V>) -> bool {
    msg matches WsMessage::Command(Command::Plot(p)) ==> plot_resolvable(frames, p)
}

/// `a` carries out the command `c` with `frames`: a plot is drawn in its area; a scatter
/// plot is not carried out.
pub open spec fn command_action<V>(frames: Map<Seq<char>, DataFrame<V>>, c: Command, a: UiAction<V>) -> bool {
    match c {
        Command::Plot(p) => a matches UiAction::Plot { area_name, data } && area_name@ == p.area_name@
            && plotted(frames, p, data),
        Command::ScatterPlot => a is Nothing,
    }
}

/// Processing `msg` in the state `before` leads to `after` and the action `a`:
/// a frame is kept under its name; a command is logged and carried out; anything
/// else is ignored.
pub open spec fn processed<V>(before: ModelView<V>, msg: WsMessage<V>, after: ModelView<V>, a: UiAction<V>) -> bool {
    match msg {
        WsMessage::DataFrame(df) => {
            &&& after.frames == before.frames.insert(df.name@, df)
            &&& after.commands == before.commands
            &&& a is Nothing
        },
        WsMessage::Command(c) => {
            &&& after.frames == before.frames
            &&& after.commands == before.commands.push(c)
            &&& command_action(before.frames, c, a)
        },
        WsMessage::Ignore => {
            &&& after == before
            &&& a is Nothing
        },
    }
}

fn frame_has_column<V>(df: &DataFrame<V>, name: &String) -> (r: bool)
    ensures
        r == has_column(*df, name@),
{
    match find_column(&df.columns, name) {
        Some(i) => i < df.data.len(),
        None => false,
    }
}

/// Whether the plot can be drawn from the frames received.
pub fn can_plot<V>(data: &FrameStore<DataFrame<V>>, p: &PlotParam) -> (r: bool)
    ensures
        r == plot_resolvable(data.map(), *p),
{
    match data.get(&p.data_name) {
        Some(df) => frame_has_column(df, &p.col_name_x) && frame_has_column(df, &p.col_name_y),
        None => false,
    }
}

/// The data of the plot `p`: the x and y columns of its frame.
pub fn plot<V: Copy>(data: &FrameStore<DataFrame<V>>, p: &PlotParam) -> (r: PlotlyDataArray<V>)
    requires
        plot_resolvable(data.map(), *p),
    ensures
        plotted(data.map(), *p, r),
{
    let df = data.get(&p.data_name).unwrap();
    let x = copy_values(df.get_col(&p.col_name_x).unwrap());
    let y = copy_values(df.get_col(&p.col_name_y).unwrap());
    let mut traces: Vec<PlotlyData<V>> = Vec::new();
    traces.push(PlotlyData { x, y });
    PlotlyDataArray(traces)
}

/// A frame received is found under its name afterwards; every other name finds what it found
/// before; the commands stay as they were and nothing is done.
pub proof fn law_frame_then_lookup<V>(
    before: ModelView<V>,
    df: DataFrame<V>,
    after: ModelView<V>,
    a: UiAction<V>,
    other: Seq<char>,
)
    requires
        processed(before, WsMessage::DataFrame(df), after, a),
    ensures
        after.frames.contains_key(df.name@),
        after.frames[df.name@] == df,
        other != df.name@ ==> after.frames.contains_key(other) == before.frames.contains_key(other),
        other != df.name@ && before.frames.contains_key(other) ==> after.frames[other] == before.frames[other],
        after.commands == before.commands,
        a is Nothing,
{
}

/// The commands received only grow: what was logged before any message stays, in order,
/// at the front of the log, and at most one command is added.
pub proof fn law_commands_only_grow<V>(
    before: ModelView<V>,
    msg: WsMessage<V>,
    after: ModelView<V>,
    a: UiAction<V>,
)
    requires
        processed(before, msg, after, a),
    ensures
        before.commands.len() <= after.commands.len() <= before.commands.len() + 1,
        after.commands.take(before.commands.len() as int) == before.commands,
{
    assert(after.commands.take(before.commands.len() as int) =~= before.commands);
}

impl<V: Copy> Model<V> {
    /// A model that has received nothing.
    pub fn new() -> (r: Self)
        ensures
            r@.frames == Map::<Seq<char>, DataFrame<V>>::empty(),
            r@.commands == Seq::<Command>::empty(),
    {
        Model { data: FrameStore::new(), commands: Vec::new() }
    }

    /// The frame received under `name`, if any.
    pub fn frame(&self, name: &String) -> (r: Option<&DataFrame<V>>)
        ensures
            match r {
                Some(df) => self@.frames.contains_key(name@) && *df == self@.frames[name@],
                None => !self@.frames.contains_key(name@),
            },
    {
        self.data.get(name)
    }

    /// The commands received, in order.
    pub fn commands(&self) -> (r: &Vec<Command>)
        ensures
            r@ == self@.commands,
    {
        &self.commands
    }

    /// The names of the frames received, each once: what the page lists.
    pub fn data_names(&self) -> (r: Vec<String>)
        ensures
            r.deep_view().to_set() == self@.frames.dom(),
            r.deep_view().no_duplicates(),
    {
        self.data.names()
    }

    /// Whether the message can be processed now.
    pub fn can_process(&self, msg: &WsMessage<V>) -> (r: bool)
        ensures
            r == processable(self@.frames, *msg),
    {
        match msg {
            WsMessage::Command(Command::Plot(p)) => can_plot(&self.data, p),
            _ => true,
        }
    }

    /// Carries out the last command received.
    pub fn process_last_command(&self) -> (r: UiAction<V>)
        requires
            self@.commands.len() > 0,
            self@.commands.last() matches Command::Plot(p) ==> plot_resolvable(self@.frames, p),
        ensures
            command_action(self@.frames, self@.commands.last(), r),
    {
        let command = &self.commands[self.commands.len() - 1];
        match command {
            Command::Plot(p) => UiAction::Plot { area_name: p.area_name.clone(), data: plot(&self.data, p) },
            Command::ScatterPlot => UiAction::Nothing,
        }
    }

    /// Processes a websocket message.
    pub fn process_wsmsg(&mut self, wsmsg: WsMessage<V>) -> (r: UiAction<V>)
        requires
            processable(old(self)@.frames, wsmsg),
        ensures
            processed(old(self)@, wsmsg, final(self)@, r),
    {
        match wsmsg {
            WsMessage::DataFrame(df) => {
                self.data.insert(df);
                UiAction::Nothing
            },
            WsMessage::Command(command) => {
                self.commands.push(command);
                self.process_last_command()
            },
            WsMessage::Ignore => UiAction::Nothing,
        }
    }

    /// Handles a message to the model; the page is always drawn again after it.
    pub fn update(&mut self, msg: ModelMessage<WsMessage<V>>) -> (r: (UiAction<V>, bool))
        requires
            msg matches ModelMessage::WsMessage(m) ==> processable(old(self)@.frames, m),
        ensures
            r.1,
            match msg {
                ModelMessage::WsMessage(m) => processed(old(self)@, m, final(self)@, r.0),
                _ => final(self)@ == old(self)@ && r.0 is Nothing,
            },
    {
        let action = match msg {
            ModelMessage::WsMessage(wsmsg) => self.process_wsmsg(wsmsg),
            ModelMessage::UiMessage(_) => UiAction::Nothing,
            ModelMessage::Ignore => UiAction::Nothing,
        };
        (action, true)
    }
}

} // verus!

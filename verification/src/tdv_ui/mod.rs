//! The user interface: what it keeps, what it does with each message, and what it draws.

pub mod grid;
pub mod msg;
pub mod plot;

use vstd::prelude::*;
use crate::store::FrameStore;
use crate::tdv_client::{spec_ws_uri, ws_uri};
use crate::tdv_msg::{Command, DataFrame, PlotParam, WsMessage};
use grid::{GridDomAction, layout_spans_fit, set_grid_layout, shows_layout, spans_fit_all};
use msg::ModelMessage;
use plot::{PlotlyData, can_plot, plot, plot_resolvable, plotted};

verus! {

/// What the program around the model does after a message.
#[derive(Debug)]
pub enum UiAction<V> {
    /// Nothing.
    Nothing,
    /// Draw `data` with Plotly in the element `area_name`.
    Plot { area_name: String, data: PlotlyData<V> },
    /// Change the page in these steps, in order.
    SetGridLayout(Vec<GridDomAction>),
    /// Open a websocket to the client at this URI, for its messages to come here too.
    ConnectClient(String),
    /// Send this message to the server.
    Reply(WsMessage<V>),
}

/// The state of the user interface: the data frames received, by name, and the
/// commands received, in order.
pub struct Model<V> {
    data: FrameStore<DataFrame<V>>,
    commands: Vec<Command>,
}

/// What the model holds.
pub struct ModelView<V> {
    /// The frames received, by name.
    pub frames: Map<Seq<char>, DataFrame<V>>,
    /// The commands received, in order.
    pub commands: Seq<Command>,
}

impl<V> View for Model<V> {
    type V = ModelView<V>;

    closed spec fn view(&self) -> ModelView<V> {
        ModelView { frames: self.data.map(), commands: self.commands@ }
    }
}

/// The command can be carried out with the frames received: a plot's traces name frames and
/// columns received, and a layout's spans fit.
pub open spec fn command_processable<V>(frames: Map<Seq<char>, DataFrame<V>>, c: Command) -> bool {
    match c {
        Command::Plot(p) => plot_resolvable(frames, p),
        Command::SetGridLayout(gl) => layout_spans_fit(gl@),
    }
}

/// The message can be processed in a model that holds `frames`.
pub open spec fn processable<V>(frames: Map<Seq<char>, DataFrame<V>>, msg: WsMessage<V>) -> bool {
    msg matches WsMessage::Command(c) ==> command_processable(frames, c)
}

/// `a` carries out the command `c` with `frames`: a plot draws the columns that its traces
/// name in its area; a layout is shown.
pub open spec fn command_action<V>(frames: Map<Seq<char>, DataFrame<V>>, c: Command, a: UiAction<V>) -> bool {
    match c {
        Command::Plot(p) => a matches UiAction::Plot { area_name, data } && area_name@ == p.area_name@
            && plotted(frames, p, data),
        Command::SetGridLayout(gl) => a matches UiAction::SetGridLayout(actions) && shows_layout(
            actions@,
            gl@,
        ),
    }
}

/// Processing `msg` in the state `before` leads to `after` and the action `a`:
/// a frame is kept under its name; a command is logged and carried out; a request to
/// connect opens a websocket to `ws://` followed by the client's address; a question from the server is answered
/// `IAmUI`; anything else is ignored.
pub open spec fn processed<V>(before: ModelView<V>, msg: WsMessage<V>, after: ModelView<V>, a: UiAction<V>) -> bool {
    match msg {
        WsMessage::DataFrame(df) => {
            &&& after.frames == before.frames.insert(df.name@, df)
            &&& after.commands == before.commands
            &&& a is Nothing
        },
        WsMessage::Command(c) => {
            &&& after.frames == before.frames
            &&& after.commands == before.commands.push(c)
            &&& command_action(before.frames, c, a)
        },
        WsMessage::Connect(c) => {
            &&& after == before
            &&& a matches UiAction::ConnectClient(uri) && uri@ == spec_ws_uri(c.address@)
        },
        WsMessage::WhoAreYou => {
            &&& after == before
            &&& a == UiAction::<V>::Reply(WsMessage::IAmUI)
        },
        _ => {
            &&& after == before
            &&& a is Nothing
        },
    }
}

/// A frame received is found under its name afterwards; every other name finds what it found
/// before; the commands stay as they were and nothing is done.
pub proof fn law_frame_then_lookup<V>(
    before: ModelView<V>,
    df: DataFrame<V>,
    after: ModelView<V>,
    a: UiAction<V>,
    other: Seq<char>,
)
    requires
        processed(before, WsMessage::DataFrame(df), after, a),
    ensures
        after.frames.contains_key(df.name@),
        after.frames[df.name@] == df,
        other != df.name@ ==> after.frames.contains_key(other) == before.frames.contains_key(other),
        other != df.name@ && before.frames.contains_key(other) ==> after.frames[other] == before.frames[other],
        after.commands == before.commands,
        a is Nothing,
{
}

/// The commands received only grow: what was logged before any message stays, in order,
/// at the front of the log, and at most one command is added.
pub proof fn law_commands_only_grow<V>(
    before: ModelView<V>,
    msg: WsMessage<V>,
    after: ModelView<V>,
    a: UiAction<V>,
)
    requires
        processed(before, msg, after, a),
    ensures
        before.commands.len() <= after.commands.len() <= before.commands.len() + 1,
        after.commands.take(before.commands.len() as int) == before.commands,
{
    assert(after.commands.take(before.commands.len() as int) =~= before.commands);
}

/// Only frames and commands change the model: any other message leaves it as it was.
pub proof fn law_other_messages_keep_state<V>(
    before: ModelView<V>,
    msg: WsMessage<V>,
    after: ModelView<V>,
    a: UiAction<V>,
)
    requires
        processed(before, msg, after, a),
        !(msg is DataFrame),
        !(msg is Command),
    ensures
        after == before,
{
}

/// A plot request that the client builds with `PlotParam::into_command`, once the user
/// interface holds the frames and columns that it names, draws those columns in its area.
pub proof fn law_plot_request_draws<V>(
    before: ModelView<V>,
    p: PlotParam,
    after: ModelView<V>,
    a: UiAction<V>,
)
    requires
        plot_resolvable(before.frames, p),
        processed(before, WsMessage::Command(Command::Plot(p)), after, a),
    ensures
        a matches UiAction::Plot { area_name, data } && area_name@ == p.area_name@ && plotted(
            before.frames,
            p,
            data,
        ),
        after.frames == before.frames,
        after.commands.last() == Command::Plot(p),
{
}

impl<V: Copy> Model<V> {
    /// A model that has received nothing.
    pub fn new() -> (r: Self)
        ensures
            r@.frames == Map::<Seq<char>, DataFrame<V>>::empty(),
            r@.commands == Seq::<Command>::empty(),
    {
        Model { data: FrameStore::new(), commands: Vec::new() }
    }

    /// The frame received under `name`, if any.
    pub fn frame(&self, name: &String) -> (r: Option<&DataFrame<V>>)
        ensures
            match r {
                Some(df) => self@.frames.contains_key(name@) && *df == self@.frames[name@],
                None => !self@.frames.contains_key(name@),
            },
    {
        self.data.get(name)
    }

    /// The commands received, in order.
    pub fn commands(&self) -> (r: &Vec<Command>)
        ensures
            r@ == self@.commands,
    {
        &self.commands
    }

    /// The names of the frames received, each once: what the page lists.
    pub fn data_names(&self) -> (r: Vec<String>)
        ensures
            r.deep_view().to_set() == self@.frames.dom(),
            r.deep_view().no_duplicates(),
    {
        self.data.names()
    }

    /// Whether the command can be carried out with the frames received.
    pub fn can_process_command(&self, c: &Command) -> (r: bool)
        ensures
            r == command_processable(self@.frames, *c),
    {
        match c {
            Command::Plot(p) => can_plot(&self.data, p),
            Command::SetGridLayout(gl) => spans_fit_all(gl),
        }
    }

    /// Whether the message can be processed now.
    pub fn can_process(&self, msg: &WsMessage<V>) -> (r: bool)
        ensures
            r == processable(self@.frames, *msg),
    {
        match msg {
            WsMessage::Command(c) => self.can_process_command(c),
            _ => true,
        }
    }

    /// Carries out the last command received.
    pub fn process_last_command(&self) -> (r: UiAction<V>)
        requires
            self@.commands.len() > 0,
            command_processable(self@.frames, self@.commands.last()),
        ensures
            command_action(self@.frames, self@.commands.last(), r),
    {
        let command = &self.commands[self.commands.len() - 1];
        match command {
            Command::Plot(p) => UiAction::Plot { area_name: p.area_name.clone(), data: plot(&self.data, p) },
            Command::SetGridLayout(gl) => UiAction::SetGridLayout(set_grid_layout(gl)),
        }
    }

    /// Processes a websocket message.
    pub fn process_wsmsg(&mut self, wsmsg: WsMessage<V>) -> (r: UiAction<V>)
        requires
            processable(old(self)@.frames, wsmsg),
        ensures
            processed(old(self)@, wsmsg, final(self)@, r),
    {
        match wsmsg {
            WsMessage::DataFrame(df) => {
                self.data.insert(df);
                UiAction::Nothing
            },
            WsMessage::Command(command) => {
                self.commands.push(command);
                self.process_last_command()
            },
            WsMessage::Connect(connect) => UiAction::ConnectClient(ws_uri(&connect.address)),
            WsMessage::WhoAreYou => UiAction::Reply(WsMessage::IAmUI),
            WsMessage::Ignore => UiAction::Nothing,
            WsMessage::IAmUI => UiAction::Nothing,
            WsMessage::IAmClient => UiAction::Nothing,
        }
    }

    /// Handles a message to the model; the page is always drawn again after it.
    pub fn update(&mut self, msg: ModelMessage<WsMessage<V>>) -> (r: (UiAction<V>, bool))
        requires
            msg matches ModelMessage::WsMessage(m) ==> processable(old(self)@.frames, m),
        ensures
            r.1,
            match msg {
                ModelMessage::WsMessage(m) => processed(old(self)@, m, final(self)@, r.0),
                _ => final(self)@ == old(self)@ && r.0 is Nothing,
            },
    {
        let action = match msg {
            ModelMessage::WsMessage(wsmsg) => self.process_wsmsg(wsmsg),
            ModelMessage::UiMessage(_) => UiAction::Nothing,
            ModelMessage::Ignore => UiAction::Nothing,
        };
        (action, true)
    }
}

} // verus!

use tdv::tdv_msg::{
    Col, Command, Connect, DataFrame, GridLayout, PlotParam, Row, Scatter, Trace, WsMessage,
};
use tdv::tdv_ui::grid::GridDomAction;
use tdv::tdv_ui::msg::{ModelMessage, UiMessage};
use tdv::tdv_ui::plot::{can_plot, plot, PlotlyTrace};
use tdv::tdv_ui::{Model, UiAction};
use tdv::store::FrameStore;

fn frame() -> DataFrame<f64> {
    DataFrame {
        name: "3-dim vector".to_string(),
        columns: vec!["x".to_string(), "y".to_string()],
        index: vec![1, 2, 3, 4],
        data: vec![vec![5.0, 6.0, 7.0, 8.0], vec![9.0, 12.0, 11.0, 10.0]],
    }
}

fn scatter(x: &str, y: &str) -> Trace {
    Trace::Scatter(Scatter {
        df_name: "3-dim vector".to_string(),
        col_name_x: x.to_string(),
        col_name_y: y.to_string(),
    })
}

fn plot_param(area: &str) -> PlotParam {
    PlotParam { area_name: area.to_string(), traces: vec![scatter("x", "y"), scatter("y", "x")] }
}

#[test]
fn plot_draws_named_columns() {
    let mut store = FrameStore::new();
    store.insert(frame());
    let p = plot_param("plot_area");
    assert!(can_plot(&store, &p));
    let data = plot(&store, &p);
    assert_eq!(data.0.len(), 2);
    match &data.0[0] {
        PlotlyTrace::PlotlyScatter(s) => {
            assert_eq!(s.x, vec![5.0, 6.0, 7.0, 8.0]);
            assert_eq!(s.y, vec![9.0, 12.0, 11.0, 10.0]);
        }
    }
    match &data.0[1] {
        PlotlyTrace::PlotlyScatter(s) => {
            assert_eq!(s.x, vec![9.0, 12.0, 11.0, 10.0]);
            assert_eq!(s.y, vec![5.0, 6.0, 7.0, 8.0]);
        }
    }
}

#[test]
fn can_plot_needs_frame_and_columns() {
    let mut store: FrameStore<DataFrame<f64>> = FrameStore::new();
    assert!(!can_plot(&store, &plot_param("a")));
    store.insert(frame());
    let missing_column = PlotParam { area_name: "a".to_string(), traces: vec![scatter("x", "z")] };
    assert!(!can_plot(&store, &missing_column));
    let no_traces = PlotParam { area_name: "a".to_string(), traces: vec![] };
    assert!(can_plot(&store, &no_traces));
}

#[test]
fn frame_then_plot_command() {
    let mut model: Model<f64> = Model::new();
    let a = model.process_wsmsg(WsMessage::DataFrame(frame()));
    assert!(matches!(a, UiAction::Nothing));
    assert_eq!(model.data_names(), vec!["3-dim vector"]);
    assert_eq!(model.frame(&"3-dim vector".to_string()).unwrap().index, vec![1, 2, 3, 4]);
    let msg: WsMessage<f64> = plot_param("grid_elem1").into_command();
    assert!(model.can_process(&msg));
    match model.process_wsmsg(msg) {
        UiAction::Plot { area_name, data } => {
            assert_eq!(area_name, "grid_elem1");
            assert_eq!(data.0.len(), 2);
        }
        other => panic!("unexpected {:?}", other),
    }
    assert_eq!(model.commands().len(), 1);
}

#[test]
fn plot_command_without_frame_cannot_be_processed() {
    let model: Model<f64> = Model::new();
    let msg: WsMessage<f64> = plot_param("a").into_command();
    assert!(!model.can_process(&msg));
}

#[test]
fn grid_layout_command() {
    let mut model: Model<f64> = Model::new();
    let gl = GridLayout::new(2).add("g".to_string(), Row(1), Col((1, 2)));
    match model.process_wsmsg(gl.into_command()) {
        UiAction::SetGridLayout(actions) => {
            assert_eq!(actions.len(), 4);
            match &actions[2] {
                GridDomAction::InsertStyleRules(rules) => {
                    assert_eq!(rules[1], "#g { grid-row: 1; grid-column: 1 / 3; }")
                }
                other => panic!("unexpected {:?}", other),
            }
        }
        other => panic!("unexpected {:?}", other),
    }
    assert!(matches!(model.commands()[0], Command::SetGridLayout(_)));
}

#[test]
fn connect_and_questions() {
    let mut model: Model<f64> = Model::new();
    match model.process_wsmsg(WsMessage::Connect(Connect { address: "0.0.0.0:9002".to_string() })) {
        UiAction::ConnectClient(address) => assert_eq!(address, "ws://0.0.0.0:9002"),
        other => panic!("unexpected {:?}", other),
    }
    assert!(matches!(model.process_wsmsg(WsMessage::WhoAreYou), UiAction::Reply(WsMessage::IAmUI)));
    assert!(matches!(model.process_wsmsg(WsMessage::Ignore), UiAction::Nothing));
    assert!(matches!(model.process_wsmsg(WsMessage::IAmUI), UiAction::Nothing));
    assert!(matches!(model.process_wsmsg(WsMessage::IAmClient), UiAction::Nothing));
    assert!(model.data_names().is_empty());
    assert!(model.commands().is_empty());
}

#[test]
fn update_always_renders() {
    let mut model: Model<f64> = Model::new();
    let (a, render) = model.update(ModelMessage::UiMessage(UiMessage::Ignore));
    assert!(render);
    assert!(matches!(a, UiAction::Nothing));
    let (a, render) = model.update(ModelMessage::Ignore);
    assert!(render && matches!(a, UiAction::Nothing));
    let (a, render) = model.update(ModelMessage::WsMessage(WsMessage::DataFrame(frame())));
    assert!(render && matches!(a, UiAction::Nothing));
    assert_eq!(model.data_names().len(), 1);
}

use tdv::ui::msg::ModelMessage;
use tdv::ui::{Model, UiAction};
use tdv::wdview_msg::{Command, DataFrame, PlotParam, WsMessage};

fn frame() -> DataFrame<f64> {
    DataFrame {
        name: "3-dim vector".to_string(),
        columns: vec!["x".to_string(), "y".to_string()],
        index: vec![0, 1, 2],
        data: vec![vec![4.0, 2.0, 8.0], vec![1.0, 2.0, 3.0]],
    }
}

fn param() -> PlotParam {
    PlotParam {
        data_name: "3-dim vector".to_string(),
        area_name: "plot_area".to_string(),
        col_name_x: "x".to_string(),
        col_name_y: "y".to_string(),
    }
}

#[test]
fn wdview_frame_then_plot() {
    let mut model: Model<f64> = Model::new();
    assert!(matches!(model.process_wsmsg(WsMessage::DataFrame(frame())), UiAction::Nothing));
    let msg: WsMessage<f64> = param().into_wsmsg();
    assert!(model.can_process(&msg));
    match model.process_wsmsg(msg) {
        UiAction::Plot { area_name, data } => {
            assert_eq!(area_name, "plot_area");
            assert_eq!(data.0.len(), 1);
            assert_eq!(data.0[0].x, vec![4.0, 2.0, 8.0]);
            assert_eq!(data.0[0].y, vec![1.0, 2.0, 3.0]);
        }
        other => panic!("unexpected {:?}", other),
    }
}

#[test]
fn wdview_plot_needs_frame() {
    let model: Model<f64> = Model::new();
    assert!(!model.can_process(&param().into_wsmsg()));
}

#[test]
fn wdview_scatter_and_ignore() {
    let mut model: Model<f64> = Model::new();
    assert!(matches!(model.process_wsmsg(WsMessage::Command(Command::ScatterPlot)), UiAction::Nothing));
    assert_eq!(model.commands().len(), 1);
    let (a, render) = model.update(ModelMessage::WsMessage(WsMessage::Ignore));
    assert!(render && matches!(a, UiAction::Nothing));
    assert_eq!(model.commands().len(), 1);
    assert!(model.frame(&"3-dim vector".to_string()).is_none());
}

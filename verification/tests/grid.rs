use tdv::tdv_msg::{Col, GridElement, GridLayout, Row, RowOrCol, WsMessage, Command};
use tdv::tdv_ui::grid::{
    add_grid_styles, add_grids, element, remove_all_grid_styles, remove_all_grids, set_grid_layout,
    spans_fit_all, wrapper, GridDomAction,
};
use tdv::text::decimal_string;

fn example_layout() -> GridLayout {
    GridLayout::new(3)
        .add("grid_elem1".to_string(), Row(1), Col(1))
        .add("grid_elem2".to_string(), Row(1), Col(2))
        .add("grid_elem3".to_string(), Row(2), Col((1, 2)))
        .add("grid_elem4".to_string(), Row((1, 2)), Col(3))
}

#[test]
fn row_or_col_values() {
    assert_eq!(5u32.value(), (5, 0));
    assert_eq!((2u32, 4u32).value(), (2, 4));
    assert_eq!(Row(7u32).value(), (7, 0));
    assert_eq!(Col((1u32, 3u32)).value(), (1, 3));
}

#[test]
fn new_layout_is_empty() {
    let gl = GridLayout::new(4);
    assert_eq!(gl.columns(), 4);
    assert!(gl.elements().is_empty());
}

#[test]
fn add_places_elements_in_order() {
    let gl = example_layout();
    assert_eq!(gl.columns(), 3);
    let es = gl.elements();
    assert_eq!(es.len(), 4);
    let got: Vec<(String, u32, u32, u32, u32)> = es
        .iter()
        .map(|e| (e.id().clone(), e.row(), e.row_max(), e.col(), e.col_max()))
        .collect();
    assert_eq!(
        got,
        vec![
            ("grid_elem1".to_string(), 1, 0, 1, 0),
            ("grid_elem2".to_string(), 1, 0, 2, 0),
            ("grid_elem3".to_string(), 2, 0, 1, 2),
            ("grid_elem4".to_string(), 1, 2, 3, 0),
        ]
    );
}

#[test]
fn from_parts_keeps_elements() {
    let gl = GridLayout::from_parts(2, vec![GridElement::new("a".to_string(), 1, 2, 3, 4)]);
    assert_eq!(gl.columns(), 2);
    let e = &gl.elements()[0];
    assert_eq!((e.id().as_str(), e.row(), e.row_max(), e.col(), e.col_max()), ("a", 1, 2, 3, 4));
}

#[test]
fn layout_into_command() {
    let msg: WsMessage<f64> = example_layout().into_command();
    match msg {
        WsMessage::Command(Command::SetGridLayout(gl)) => assert_eq!(gl.elements().len(), 4),
        other => panic!("unexpected {:?}", other),
    }
}

#[test]
fn decimal_strings() {
    assert_eq!(decimal_string(0), "0");
    assert_eq!(decimal_string(7), "7");
    assert_eq!(decimal_string(10), "10");
    assert_eq!(decimal_string(9012), "9012");
    assert_eq!(decimal_string(u32::MAX), "4294967295");
}

#[test]
fn wrapper_rule() {
    assert_eq!(
        wrapper(3),
        "#tdv_plot_area { display: grid; grid-template-columns: repeat(3, 1fr); grid-template-rows: repeat(2, 1fr); grid-gap: 10px; grid-auto-rows: minmax(100px, auto); }"
    );
    assert_eq!(
        wrapper(12),
        "#tdv_plot_area { display: grid; grid-template-columns: repeat(12, 1fr); grid-template-rows: repeat(2, 1fr); grid-gap: 10px; grid-auto-rows: minmax(100px, auto); }"
    );
}

#[test]
fn element_rules() {
    let single = GridElement::new("grid_elem1".to_string(), 1, 0, 2, 0);
    assert_eq!(element(&single), "#grid_elem1 { grid-row: 1; grid-column: 2; }");
    let spans = GridElement::new("e".to_string(), 1, 2, 3, 9);
    assert_eq!(element(&spans), "#e { grid-row: 1 / 3; grid-column: 3 / 10; }");
}

#[test]
fn spans_fit_check() {
    assert!(spans_fit_all(&example_layout()));
    let gl = GridLayout::from_parts(1, vec![GridElement::new("x".to_string(), 1, u32::MAX, 1, 0)]);
    assert!(!spans_fit_all(&gl));
}

#[test]
fn single_actions() {
    assert!(matches!(remove_all_grids(), GridDomAction::RemoveAllGrids));
    assert!(matches!(remove_all_grid_styles(), GridDomAction::RemoveAllGridStyles));
    match add_grids(&example_layout()) {
        GridDomAction::AddGrids(ids) => {
            assert_eq!(ids, vec!["grid_elem1", "grid_elem2", "grid_elem3", "grid_elem4"])
        }
        other => panic!("unexpected {:?}", other),
    }
    match add_grid_styles(&GridLayout::new(2)) {
        GridDomAction::InsertStyleRules(rules) => assert_eq!(rules, vec![wrapper(2)]),
        other => panic!("unexpected {:?}", other),
    }
}

#[test]
fn set_grid_layout_steps() {
    let actions = set_grid_layout(&example_layout());
    assert_eq!(actions.len(), 4);
    assert!(matches!(actions[0], GridDomAction::RemoveAllGrids));
    assert!(matches!(actions[1], GridDomAction::RemoveAllGridStyles));
    match &actions[2] {
        GridDomAction::InsertStyleRules(rules) => assert_eq!(
            rules,
            &vec![
                wrapper(3),
                "#grid_elem1 { grid-row: 1; grid-column: 1; }".to_string(),
                "#grid_elem2 { grid-row: 1; grid-column: 2; }".to_string(),
                "#grid_elem3 { grid-row: 2; grid-column: 1 / 3; }".to_string(),
                "#grid_elem4 { grid-row: 1 / 3; grid-column: 3; }".to_string(),
            ]
        ),
        other => panic!("unexpected {:?}", other),
    }
    match &actions[3] {
        GridDomAction::AddGrids(ids) => {
            assert_eq!(ids, &vec!["grid_elem1", "grid_elem2", "grid_elem3", "grid_elem4"])
        }
        other => panic!("unexpected {:?}", other),
    }
}

/// The page as the grid changes it: the ids of the plot area's divs and the style sheet's rules.
fn apply(page: &mut (Vec<String>, Vec<String>), actions: Vec<GridDomAction>) {
    for a in actions {
        match a {
            GridDomAction::RemoveAllGrids => page.0.clear(),
            GridDomAction::RemoveAllGridStyles => page.1.clear(),
            GridDomAction::InsertStyleRules(rules) => {
                for (i, r) in rules.into_iter().enumerate() {
                    page.1.insert(i, r);
                }
            }
            GridDomAction::AddGrids(ids) => page.0.extend(ids),
        }
    }
}

#[test]
fn layout_replaces_page() {
    let mut page = (vec!["old".to_string()], vec!["#old { }".to_string()]);
    apply(&mut page, set_grid_layout(&example_layout()));
    assert_eq!(page.0, vec!["grid_elem1", "grid_elem2", "grid_elem3", "grid_elem4"]);
    assert_eq!(page.1.len(), 5);
    assert_eq!(page.1[0], wrapper(3));
}

#[test]
fn second_layout_wins() {
    let other = GridLayout::new(1).add("solo".to_string(), Row(1), Col(1));
    let mut twice = (vec!["junk".to_string()], vec![]);
    apply(&mut twice, set_grid_layout(&example_layout()));
    apply(&mut twice, set_grid_layout(&example_layout()));
    let mut once = (vec!["junk".to_string()], vec![]);
    apply(&mut once, set_grid_layout(&example_layout()));
    assert_eq!(twice, once);

    let mut both = (vec![], vec![]);
    apply(&mut both, set_grid_layout(&example_layout()));
    apply(&mut both, set_grid_layout(&other));
    let mut second = (vec![], vec![]);
    apply(&mut second, set_grid_layout(&other));
    assert_eq!(both, second);
    assert_eq!(second.0, vec!["solo"]);
    assert_eq!(second.1, vec![wrapper(1), "#solo { grid-row: 1; grid-column: 1; }".to_string()]);
}

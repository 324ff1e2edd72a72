use tdv::store::FrameStore;
use tdv::tdv_msg::DataFrame;
use tdv::wdview_msg;

fn frame(name: &str) -> DataFrame<f64> {
    DataFrame {
        name: name.to_string(),
        columns: vec!["x".to_string(), "y".to_string()],
        index: vec![1, 2, 3, 4],
        data: vec![vec![5.0, 6.0, 7.0, 8.0], vec![9.0, 12.0, 11.0, 10.0]],
    }
}

#[test]
fn get_col_finds_column() {
    let df = frame("3-dim vector");
    assert_eq!(df.get_col(&"x".to_string()), Some(&vec![5.0, 6.0, 7.0, 8.0]));
    assert_eq!(df.get_col(&"y".to_string()), Some(&vec![9.0, 12.0, 11.0, 10.0]));
    assert_eq!(df.get_col(&"z".to_string()), None);
}

#[test]
fn get_col_takes_first_of_equal_names() {
    let df = DataFrame {
        name: "d".to_string(),
        columns: vec!["a".to_string(), "a".to_string()],
        index: vec![0],
        data: vec![vec![1.0], vec![2.0]],
    };
    assert_eq!(df.get_col(&"a".to_string()), Some(&vec![1.0]));
}

#[test]
fn wdview_get_col() {
    let df = wdview_msg::DataFrame {
        name: "v".to_string(),
        columns: vec!["x".to_string(), "y".to_string()],
        index: vec![0, 1],
        data: vec![vec![4.0, 2.0], vec![8.0, 1.0]],
    };
    assert_eq!(df.get_col(&"y".to_string()), Some(&vec![8.0, 1.0]));
    assert_eq!(df.get_col(&"w".to_string()), None);
}

#[test]
fn store_insert_then_get() {
    let mut store: FrameStore<DataFrame<f64>> = FrameStore::new();
    assert!(store.get(&"a".to_string()).is_none());
    store.insert(frame("a"));
    store.insert(frame("b"));
    assert_eq!(store.get(&"a".to_string()).map(|df| df.name.clone()), Some("a".to_string()));
    assert_eq!(store.get(&"b".to_string()).map(|df| df.index.len()), Some(4));
    let mut names = store.names();
    names.sort();
    assert_eq!(names, vec!["a", "b"]);
}

#[test]
fn store_insert_replaces_same_name() {
    let mut store: FrameStore<DataFrame<f64>> = FrameStore::new();
    store.insert(frame("a"));
    let mut newer = frame("a");
    newer.index = vec![7];
    store.insert(newer);
    assert_eq!(store.names(), vec!["a"]);
    assert_eq!(store.get(&"a".to_string()).unwrap().index, vec![7]);
}

# tdv

Tiny Data Viewer shows data frames sent by a client program in a browser, through a
websocket server. This crate holds its logic, verified with Verus:

- `src/`: the library. Message types (`tdv_msg`, `wdview_msg`), the user interface's
  model as a state machine from message to action (`tdv_ui`, `ui`), plot data and CSS grid
  rules (`tdv_ui::plot`, `tdv_ui::grid`), the server's and the client's decisions
  (`tdv_server`, `tdv_client`).
- `app/`: the programs around it: JSON on the wire (serde), websockets (tungstenite),
  the static file server (rocket, sled), and the yew components that carry the model's
  actions out in the page. `app/main.rs` runs the server, or with an argument its user interface (`ui`),
  or the first server and user interface (`wdview-server`, `wdview-ui`).
- `tests/`: tests of the library on concrete values.

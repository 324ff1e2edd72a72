//! The messages that this user interface handles: those of `crate::ui::msg`,
//! carrying `tdv_msg` websocket messages.

pub use crate::ui::msg::{ModelMessage, UiMessage, WsMessageForModel};

//! Toggle-able popup sessions on top of a running tmux client.

pub mod host;
pub mod model;
pub mod naming;
pub mod text;
pub mod toggle;

//! Widgets of the editor: the data behind them, without their rendering.

pub mod menu;

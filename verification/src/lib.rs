//! A verified model of the firmware devices view.
//!
//! The view lists firmware that can be updated, in two sections: system
//! firmware and device firmware. Each row shows a device name, the installed
//! version and an "Update" button that shares its place with a progress bar.
//!
//! This crate decides what the view consists of and keeps track of its rows;
//! it draws nothing. A front end renders the descriptions it hands out with
//! the widget toolkit of its choice.

pub mod info;
pub mod widgets;
pub mod handle;
pub mod row;
pub mod list;
pub mod devices;
pub mod laws;

pub use devices::{Container, DevicesView};
pub use handle::{DeviceWidget, FirmwareList, Part, WidgetRef};
pub use info::FirmwareInfo;
pub use list::ListBox;
pub use row::{separator_header, Row};
pub use widgets::{
    Align, Button, Cell, Grid, Label, Orientation, Page, ProgressBar, Separator, Stack,
};

//! Plain descriptions of the widgets that the view is made of.
//!
//! A description says how a widget is set up, not how it is drawn. Lengths are
//! in pixels, as the toolkit counts them.

use vstd::prelude::*;

verus! {

/// Where a widget, or the text in it, sits in the room it is given.
#[derive(Clone, Copy, Debug, PartialEq, Eq, Structural)]
pub enum Align {
    Fill,
    Start,
    End,
    Center,
}

/// The direction in which something is laid out.
#[derive(Clone, Copy, Debug, PartialEq, Eq, Structural)]
pub enum Orientation {
    Horizontal,
    Vertical,
}

/// The two pages of a row's stack, of which one shows at a time.
#[derive(Clone, Copy, Debug, PartialEq, Eq, Structural)]
pub enum Page {
    /// The "Update" button.
    Button,
    /// The progress bar that stands in for the button while an update runs.
    Progress,
}

/// A line of text.
#[derive(Clone, Debug, PartialEq, Eq)]
pub struct Label {
    pub text: String,
    /// Whether the text holds markup that the toolkit interprets.
    pub markup: bool,
    /// Where the text sits in the label; `Start` is the left edge.
    pub text_align: Align,
    /// Whether the label is drawn in the dimmed style.
    pub dim: bool,
}

/// The mathematical value of a [`Label`].
pub struct LabelView {
    pub text: Seq<char>,
    pub markup: bool,
    pub text_align: Align,
    pub dim: bool,
}

impl View for Label {
    type V = LabelView;

    open spec fn view(&self) -> LabelView {
        LabelView {
            text: self.text@,
            markup: self.markup,
            text_align: self.text_align,
            dim: self.dim,
        }
    }
}

/// A push button with a caption.
#[derive(Clone, Debug, PartialEq, Eq)]
pub struct Button {
    pub label: String,
    pub halign: Align,
    /// Whether the button takes the spare width of its parent.
    pub hexpand: bool,
    pub visible: bool,
    /// Whether the button is drawn as the suggested action.
    pub suggested: bool,
}

/// The mathematical value of a [`Button`].
pub struct ButtonView {
    pub label: Seq<char>,
    pub halign: Align,
    pub hexpand: bool,
    pub visible: bool,
    pub suggested: bool,
}

impl View for Button {
    type V = ButtonView;

    open spec fn view(&self) -> ButtonView {
        ButtonView {
            label: self.label@,
            halign: self.halign,
            hexpand: self.hexpand,
            visible: self.visible,
            suggested: self.suggested,
        }
    }
}

/// A progress bar in activity mode.
#[derive(Clone, Copy, Debug, PartialEq, Eq, Structural)]
pub struct ProgressBar {
    /// How far the block moves with each pulse, in hundredths of the bar.
    pub pulse_step_percent: u8,
    /// How many pulses the bar has been given.
    pub pulses: u8,
    pub visible: bool,
}

/// A container that shows one of its two pages at a time.
#[derive(Clone, Copy, Debug, PartialEq, Eq, Structural)]
pub struct Stack {
    pub visible_child: Page,
    pub visible: bool,
}

/// The place of one child in a grid: the column and row of its top left
/// cell, and how many columns and rows it covers.
#[derive(Clone, Copy, Debug, PartialEq, Eq, Structural)]
pub struct Cell {
    pub left: i32,
    pub top: i32,
    pub width: i32,
    pub height: i32,
}

/// The grid that arranges the parts of one row.
#[derive(Clone, Copy, Debug, PartialEq, Eq, Structural)]
pub struct Grid {
    pub border_width: u32,
    pub column_spacing: u32,
    /// Where the device name stands.
    pub name: Cell,
    /// Where the version stands.
    pub version: Cell,
    /// Where the stack of button and progress bar stands.
    pub stack: Cell,
}

/// A dividing line.
#[derive(Clone, Copy, Debug, PartialEq, Eq, Structural)]
pub struct Separator {
    pub orientation: Orientation,
}

} // verus!

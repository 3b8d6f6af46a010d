//! One row of a firmware list.

use vstd::prelude::*;
use crate::info::FirmwareInfoView;
use crate::widgets::{
    Align, Button, ButtonView, Cell, Grid, Label, LabelView, Orientation, Page, ProgressBar,
    Separator, Stack,
};

verus! {

/// The caption of the button that starts an update.
pub open spec fn update_caption() -> Seq<char> {
    "Update"@
}

/// The space around a row's grid and between its columns.
pub const ROW_SPACING: u32 = 12;

/// How far the progress bar's block moves with each pulse, in hundredths.
pub const PULSE_STEP_PERCENT: u8 = 33;

/// One row: the device's name, the installed version, and to their right the
/// stack that shows either the update button or the progress bar.
#[derive(Clone, Debug, PartialEq, Eq)]
pub struct Row {
    pub name: Label,
    pub version: Label,
    pub button: Button,
    pub progress: ProgressBar,
    pub stack: Stack,
    pub grid: Grid,
    /// The separator above the row, if it has one.
    pub header: Option<Separator>,
    pub visible: bool,
}

/// The mathematical value of a [`Row`].
pub struct RowView {
    pub name: LabelView,
    pub version: LabelView,
    pub button: ButtonView,
    pub progress: ProgressBar,
    pub stack: Stack,
    pub grid: Grid,
    pub header: Option<Separator>,
    pub visible: bool,
}

impl View for Row {
    type V = RowView;

    open spec fn view(&self) -> RowView {
        RowView {
            name: self.name@,
            version: self.version@,
            button: self.button@,
            progress: self.progress,
            stack: self.stack,
            grid: self.grid,
            header: self.header,
            visible: self.visible,
        }
    }
}

impl RowView {
    /// The row that is built for `info`, before it is put into a list: the
    /// name and the installed version as left-aligned labels, the version
    /// dimmed; the button at the right, shown exactly when an update is on
    /// offer; the progress bar pulsed once; the stack on its button page.
    pub open spec fn for_info(info: FirmwareInfoView) -> RowView {
        RowView {
            name: LabelView { text: info.name, markup: false, text_align: Align::Start, dim: false },
            version: LabelView {
                text: info.current,
                markup: false,
                text_align: Align::Start,
                dim: true,
            },
            button: ButtonView {
                label: update_caption(),
                halign: Align::End,
                hexpand: true,
                visible: info.update_available(),
                suggested: true,
            },
            progress: ProgressBar {
                pulse_step_percent: PULSE_STEP_PERCENT,
                pulses: 1,
                visible: true,
            },
            stack: Stack { visible_child: Page::Button, visible: true },
            grid: Grid {
                border_width: ROW_SPACING,
                column_spacing: ROW_SPACING,
                name: Cell { left: 0, top: 0, width: 1, height: 1 },
                version: Cell { left: 0, top: 1, width: 1, height: 1 },
                stack: Cell { left: 1, top: 0, width: 1, height: 2 },
            },
            header: None,
            visible: true,
        }
    }

    /// The row as the header rule leaves it when it stands behind another
    /// row (`follows`) or at the head of its list.
    pub open spec fn with_header(self, follows: bool) -> RowView {
        if follows {
            RowView { header: Some(Separator { orientation: Orientation::Horizontal }), ..self }
        } else {
            self
        }
    }
}

/// The header rule of the lists: a row that stands behind another row gets a
/// horizontal separator above it; the first row is left as it is.
pub fn separator_header(current: &mut Row, before: Option<&Row>)
    ensures
        final(current)@ == old(current)@.with_header(before is Some),
{
    if before.is_some() {
        current.header = Some(Separator { orientation: Orientation::Horizontal });
    }
}

} // verus!

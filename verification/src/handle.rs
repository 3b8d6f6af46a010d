//! Handles to the interactive widgets of a row.
//!
//! A handle owns nothing. It names a widget by the list that holds its row,
//! the generation of that list, the row's position and the widget's part in
//! the row. Clearing a list starts a new generation, so that handles from
//! before no longer name anything in it.

use vstd::prelude::*;

verus! {

/// The two lists of the view.
#[derive(Clone, Copy, Debug, PartialEq, Eq, Hash, Structural)]
pub enum FirmwareList {
    System,
    Device,
}

/// The widgets of a row that a handle can name.
#[derive(Clone, Copy, Debug, PartialEq, Eq, Hash, Structural)]
pub enum Part {
    Button,
    Label,
    Progress,
    Stack,
}

/// A reference to one widget of one row.
#[derive(Clone, Copy, Debug, PartialEq, Eq, Hash, Structural)]
pub struct WidgetRef {
    pub list: FirmwareList,
    pub generation: u64,
    pub row: usize,
    pub part: Part,
}

/// The handles to the four interactive widgets of one row: the update
/// button, the version label, the progress bar and the stack that switches
/// between button and progress bar.
#[derive(Clone, Copy, Debug, PartialEq, Eq, Hash, Structural)]
pub struct DeviceWidget {
    pub button: WidgetRef,
    pub label: WidgetRef,
    pub progress: WidgetRef,
    pub stack: WidgetRef,
}

impl DeviceWidget {
    /// The handles of the row at position `row` of `list` in `generation`.
    pub open spec fn at(list: FirmwareList, generation: u64, row: usize) -> DeviceWidget {
        DeviceWidget {
            button: WidgetRef { list, generation, row, part: Part::Button },
            label: WidgetRef { list, generation, row, part: Part::Label },
            progress: WidgetRef { list, generation, row, part: Part::Progress },
            stack: WidgetRef { list, generation, row, part: Part::Stack },
        }
    }

    /// Whether the four handles name the four parts of one and the same row.
    pub open spec fn names_one_row(self) -> bool {
        self == Self::at(self.button.list, self.button.generation, self.button.row)
    }

    /// Whether `widget` is one of the four handles.
    pub open spec fn has(self, widget: WidgetRef) -> bool {
        widget == self.button || widget == self.label || widget == self.progress || widget
            == self.stack
    }

    /// Whether the four handles name four different widgets.
    pub open spec fn parts_distinct(self) -> bool {
        &&& self.button != self.label
        &&& self.button != self.progress
        &&& self.button != self.stack
        &&& self.label != self.progress
        &&& self.label != self.stack
        &&& self.progress != self.stack
    }

    /// Whether the two bundles have no widget in common.
    pub open spec fn disjoint(self, other: DeviceWidget) -> bool {
        forall|widget: WidgetRef| !(#[trigger] self.has(widget) && other.has(widget))
    }

    /// Makes the handles of the row at position `row` of `list` in
    /// `generation`.
    pub fn new(list: FirmwareList, generation: u64, row: usize) -> (widget: DeviceWidget)
        ensures
            widget == Self::at(list, generation, row),
    {
        DeviceWidget {
            button: WidgetRef { list, generation, row, part: Part::Button },
            label: WidgetRef { list, generation, row, part: Part::Label },
            progress: WidgetRef { list, generation, row, part: Part::Progress },
            stack: WidgetRef { list, generation, row, part: Part::Stack },
        }
    }

    /// Tells whether the four handles name the four parts of one row.
    pub fn is_one_row(&self) -> (one: bool)
        ensures
            one == self.names_one_row(),
    {
        let list = self.button.list;
        let generation = self.button.generation;
        let row = self.button.row;
        self.button.part == Part::Button && Self::names(&self.label, list, generation, row, Part::Label)
            && Self::names(&self.progress, list, generation, row, Part::Progress) && Self::names(
            &self.stack,
            list,
            generation,
            row,
            Part::Stack,
        )
    }

    fn names(
        widget: &WidgetRef,
        list: FirmwareList,
        generation: u64,
        row: usize,
        part: Part,
    ) -> (same: bool)
        ensures
            same == (*widget == WidgetRef { list, generation, row, part }),
    {
        widget.list == list && widget.generation == generation && widget.row == row && widget.part
            == part
    }
}

} // verus!

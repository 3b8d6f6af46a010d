//! A list of rows, with the header rule of the view built in.

use vstd::prelude::*;
use crate::handle::{DeviceWidget, FirmwareList, Part, WidgetRef};
use crate::info::FirmwareInfoView;
use crate::row::{separator_header, Row, RowView};
use crate::widgets::{
    Button, ButtonView, Label, LabelView, Orientation, ProgressBar, Separator, Stack,
};

verus! {

/// The generation that follows `generation`. The count wraps round, so the
/// next generation always differs from the one before.
pub open spec fn next_generation(generation: u64) -> u64 {
    if generation == u64::MAX {
        0
    } else {
        (generation + 1) as u64
    }
}

/// One of the two lists of the view.
///
/// Rows cannot be selected. The list keeps its rows in the order in which
/// they were added, and every row but the first has a separator above it.
#[derive(Debug)]
pub struct ListBox {
    kind: FirmwareList,
    generation: u64,
    margin_bottom: i32,
    selectable: bool,
    rows: Vec<Row>,
}

/// The mathematical value of a [`ListBox`].
#[verifier::ext_equal]
pub struct ListBoxView {
    pub kind: FirmwareList,
    pub generation: u64,
    pub margin_bottom: i32,
    pub selectable: bool,
    pub rows: Seq<RowView>,
}

impl View for ListBox {
    type V = ListBoxView;

    closed spec fn view(&self) -> ListBoxView {
        ListBoxView {
            kind: self.kind,
            generation: self.generation,
            margin_bottom: self.margin_bottom,
            selectable: self.selectable,
            rows: self.rows@.map_values(|row: Row| row@),
        }
    }
}

impl ListBoxView {
    /// A list without rows, in its first generation.
    pub open spec fn empty(kind: FirmwareList, margin_bottom: i32) -> ListBoxView {
        ListBoxView { kind, generation: 0, margin_bottom, selectable: false, rows: Seq::empty() }
    }

    /// The list after `row` was added at its end and the header rule was
    /// applied to it.
    pub open spec fn with_child(self, row: RowView) -> ListBoxView {
        ListBoxView { rows: self.rows.push(row.with_header(self.rows.len() > 0)), ..self }
    }

    /// The list after the row for `info` was added at its end.
    pub open spec fn with_row(self, info: FirmwareInfoView) -> ListBoxView {
        self.with_child(RowView::for_info(info))
    }

    /// The list after the rows for `infos` were added at its end, one after
    /// another.
    pub open spec fn with_rows(self, infos: Seq<FirmwareInfoView>) -> ListBoxView
        decreases infos.len(),
    {
        if infos.len() == 0 {
            self
        } else {
            self.with_row(infos.first()).with_rows(infos.drop_first())
        }
    }

    /// The bundles of handles that are given out while the rows for `infos`
    /// are added, one after another.
    pub open spec fn widgets_for(self, infos: Seq<FirmwareInfoView>) -> Seq<DeviceWidget>
        decreases infos.len(),
    {
        if infos.len() == 0 {
            Seq::empty()
        } else {
            seq![self.next_widget()]
                + self.with_row(infos.first()).widgets_for(infos.drop_first())
        }
    }

    /// The list after all its rows were destroyed.
    pub open spec fn cleared(self) -> ListBoxView {
        ListBoxView {
            generation: next_generation(self.generation),
            rows: Seq::empty(),
            ..self
        }
    }

    /// The handles that the next row to be added will get.
    pub open spec fn next_widget(self) -> DeviceWidget {
        DeviceWidget::at(self.kind, self.generation, self.rows.len() as usize)
    }

    /// Whether `widget` names a widget of a row that is in the list now.
    pub open spec fn owns(self, widget: WidgetRef) -> bool {
        &&& widget.list == self.kind
        &&& widget.generation == self.generation
        &&& widget.row < self.rows.len()
    }

    /// Whether `widget` is the bundle of handles of a row that is in the
    /// list now.
    pub open spec fn holds(self, widget: DeviceWidget) -> bool {
        widget.names_one_row() && self.owns(widget.button)
    }

    /// Whether `widget` names the part `part` of a row that is in the list
    /// now.
    pub open spec fn names(self, widget: WidgetRef, part: Part) -> bool {
        self.owns(widget) && widget.part == part
    }

    /// The list with `button` in place of the button of the row at `index`.
    pub open spec fn with_button(self, index: int, button: ButtonView) -> ListBoxView {
        ListBoxView {
            rows: self.rows.update(index, RowView { button, ..self.rows[index] }),
            ..self
        }
    }

    /// The list with `label` in place of the version label of the row at
    /// `index`.
    pub open spec fn with_label(self, index: int, label: LabelView) -> ListBoxView {
        ListBoxView {
            rows: self.rows.update(index, RowView { version: label, ..self.rows[index] }),
            ..self
        }
    }

    /// The list with `progress` in place of the progress bar of the row at
    /// `index`.
    pub open spec fn with_progress(self, index: int, progress: ProgressBar) -> ListBoxView {
        ListBoxView {
            rows: self.rows.update(index, RowView { progress, ..self.rows[index] }),
            ..self
        }
    }

    /// The list with `stack` in place of the stack of the row at `index`.
    pub open spec fn with_stack(self, index: int, stack: Stack) -> ListBoxView {
        ListBoxView { rows: self.rows.update(index, RowView { stack, ..self.rows[index] }), ..self }
    }

    /// The header that the row at position `index` of a list has: none at
    /// the head of the list, a horizontal separator at every other place.
    pub open spec fn header_at(index: int) -> Option<Separator> {
        if index > 0 {
            Some(Separator { orientation: Orientation::Horizontal })
        } else {
            None
        }
    }

    /// Whether the first row has no header and every other row has a
    /// horizontal separator as its header.
    pub open spec fn separated(self) -> bool {
        forall|i: int|
            0 <= i < self.rows.len() ==> (#[trigger] self.rows[i]).header == Self::header_at(i)
    }
}

impl ListBox {
    /// Makes an empty list for the section `kind`, with `margin_bottom`
    /// pixels of room below it.
    pub(crate) fn new(kind: FirmwareList, margin_bottom: i32) -> (list: ListBox)
        ensures
            list@ == ListBoxView::empty(kind, margin_bottom),
    {
        ListBox { kind, generation: 0, margin_bottom, selectable: false, rows: Vec::new() }
    }

    /// Adds `row` at the end of the list. The header rule runs on the new
    /// row, with the row that was last until now as the one before it.
    pub(crate) fn add(&mut self, row: Row)
        ensures
            final(self)@ == old(self)@.with_child(row@),
    {
        let mut row = row;
        separator_header(&mut row, self.rows.last());
        self.rows.push(row);
    }

    /// The section that the list belongs to.
    pub fn kind(&self) -> (kind: FirmwareList)
        ensures
            kind == self@.kind,
    {
        self.kind
    }

    /// The generation of the list: how often it was cleared, counted round
    /// the range of `u64`.
    pub fn generation(&self) -> (generation: u64)
        ensures
            generation == self@.generation,
    {
        self.generation
    }

    /// The number of rows in the list.
    pub fn len(&self) -> (len: usize)
        ensures
            len == self@.rows.len(),
    {
        self.rows.len()
    }

    /// Whether the list has no rows.
    pub fn is_empty(&self) -> (empty: bool)
        ensures
            empty == (self@.rows.len() == 0),
    {
        self.rows.len() == 0
    }

    /// The room below the list, in pixels.
    pub fn margin_bottom(&self) -> (margin: i32)
        ensures
            margin == self@.margin_bottom,
    {
        self.margin_bottom
    }

    /// Whether rows of the list can be selected.
    pub fn selectable(&self) -> (selectable: bool)
        ensures
            selectable == self@.selectable,
    {
        self.selectable
    }

    /// The row at position `index`, if the list has that many rows.
    pub fn get(&self, index: usize) -> (row: Option<&Row>)
        ensures
            row is Some <==> index < self@.rows.len(),
            row is Some ==> row.unwrap()@ == self@.rows[index as int],
    {
        if index < self.rows.len() {
            Some(&self.rows[index])
        } else {
            None
        }
    }

    /// Whether `widget` names a widget of a row that is in the list now.
    pub fn owns(&self, widget: &WidgetRef) -> (owned: bool)
        ensures
            owned == self@.owns(*widget),
    {
        widget.list == self.kind && widget.generation == self.generation
            && widget.row < self.rows.len()
    }

    /// The row that `widget` is the bundle of handles of, if that row is in
    /// the list now.
    pub fn row(&self, widget: &DeviceWidget) -> (row: Option<&Row>)
        ensures
            row is Some <==> self@.holds(*widget),
            row is Some ==> row.unwrap()@ == self@.rows[widget.button.row as int],
    {
        if widget.is_one_row() && self.owns(&widget.button) {
            Some(&self.rows[widget.button.row])
        } else {
            None
        }
    }

    /// The button that `widget` names, to read and to change. A handle that
    /// names no button of a row that is in the list now gives nothing.
    pub(crate) fn button_mut(&mut self, widget: &WidgetRef) -> (button: Option<&mut Button>)
        ensures
            button is Some <==> old(self)@.names(*widget, Part::Button),
            button is Some ==> (*button.unwrap())@ == old(self)@.rows[widget.row as int].button,
            button is Some ==> final(self)@ == old(self)@.with_button(
                widget.row as int,
                (*final(button.unwrap()))@,
            ),
            button is None ==> final(self)@ == old(self)@,
    {
        if widget.part == Part::Button && self.owns(widget) {
            Some(&mut self.rows[widget.row].button)
        } else {
            None
        }
    }

    /// The version label that `widget` names, to read and to change. A
    /// handle that names no version label of a row that is in the list now
    /// gives nothing.
    pub(crate) fn label_mut(&mut self, widget: &WidgetRef) -> (label: Option<&mut Label>)
        ensures
            label is Some <==> old(self)@.names(*widget, Part::Label),
            label is Some ==> (*label.unwrap())@ == old(self)@.rows[widget.row as int].version,
            label is Some ==> final(self)@ == old(self)@.with_label(
                widget.row as int,
                (*final(label.unwrap()))@,
            ),
            label is None ==> final(self)@ == old(self)@,
    {
        if widget.part == Part::Label && self.owns(widget) {
            Some(&mut self.rows[widget.row].version)
        } else {
            None
        }
    }

    /// The progress bar that `widget` names, to read and to change. A handle
    /// that names no progress bar of a row that is in the list now gives
    /// nothing.
    pub(crate) fn progress_mut(&mut self, widget: &WidgetRef) -> (progress: Option<&mut ProgressBar>)
        ensures
            progress is Some <==> old(self)@.names(*widget, Part::Progress),
            progress is Some ==> *progress.unwrap() == old(self)@.rows[widget.row as int].progress,
            progress is Some ==> final(self)@ == old(self)@.with_progress(
                widget.row as int,
                *final(progress.unwrap()),
            ),
            progress is None ==> final(self)@ == old(self)@,
    {
        if widget.part == Part::Progress && self.owns(widget) {
            Some(&mut self.rows[widget.row].progress)
        } else {
            None
        }
    }

    /// The stack that `widget` names, to read and to change. A handle that
    /// names no stack of a row that is in the list now gives nothing.
    pub(crate) fn stack_mut(&mut self, widget: &WidgetRef) -> (stack: Option<&mut Stack>)
        ensures
            stack is Some <==> old(self)@.names(*widget, Part::Stack),
            stack is Some ==> *stack.unwrap() == old(self)@.rows[widget.row as int].stack,
            stack is Some ==> final(self)@ == old(self)@.with_stack(
                widget.row as int,
                *final(stack.unwrap()),
            ),
            stack is None ==> final(self)@ == old(self)@,
    {
        if widget.part == Part::Stack && self.owns(widget) {
            Some(&mut self.rows[widget.row].stack)
        } else {
            None
        }
    }

    /// Destroys every row of the list and starts a new generation.
    pub(crate) fn clear(&mut self)
        ensures
            final(self)@ == old(self)@.cleared(),
    {
        self.rows.clear();
        self.generation = if self.generation == u64::MAX {
            0
        } else {
            self.generation + 1
        };
    }
}

} // verus!

//! The devices view: two headed lists of firmware rows in a scrolling region.

use vstd::prelude::*;
use crate::handle::{DeviceWidget, FirmwareList, Part, WidgetRef};
use crate::info::{FirmwareInfo, FirmwareInfoView};
use crate::list::{ListBox, ListBoxView};
use crate::row::{Row, PULSE_STEP_PERCENT, ROW_SPACING};
use crate::widgets::{
    Align, Button, ButtonView, Cell, Grid, Label, LabelView, Orientation, Page, ProgressBar, Stack,
};

verus! {

/// The heading above the list of system firmware.
pub open spec fn system_heading() -> Seq<char> {
    "<b>System Firmware</b>"@
}

/// The heading above the list of device firmware.
pub open spec fn device_heading() -> Seq<char> {
    "<b>Device Firmware</b>"@
}

/// The room between the headings and lists, and below the system list.
pub const SECTION_SPACING: i32 = 12;

/// The room above the first heading.
pub const TOP_MARGIN: i32 = 24;

/// The share of the height on offer that the scrolling region may take, in
/// hundredths.
pub const MAX_HEIGHT_PERCENT: u8 = 66;

/// The fixed part of the view: a scrolling region round a centred column
/// that holds, from the top, the system heading, the system list, the device
/// heading and the device list.
#[derive(Clone, Debug, PartialEq, Eq)]
pub struct Container {
    pub system_heading: Label,
    pub device_heading: Label,
    pub orientation: Orientation,
    pub spacing: i32,
    pub halign: Align,
    pub margin_top: i32,
    /// The direction in which the two lists are held to one size, so that
    /// their columns line up.
    pub size_group: Orientation,
    /// The region grows with what it holds, up to this share of the height
    /// on offer.
    pub max_height_percent: u8,
    pub visible: bool,
}

/// The mathematical value of a [`Container`].
pub struct ContainerView {
    pub system_heading: LabelView,
    pub device_heading: LabelView,
    pub orientation: Orientation,
    pub spacing: i32,
    pub halign: Align,
    pub margin_top: i32,
    pub size_group: Orientation,
    pub max_height_percent: u8,
    pub visible: bool,
}

impl View for Container {
    type V = ContainerView;

    open spec fn view(&self) -> ContainerView {
        ContainerView {
            system_heading: self.system_heading@,
            device_heading: self.device_heading@,
            orientation: self.orientation,
            spacing: self.spacing,
            halign: self.halign,
            margin_top: self.margin_top,
            size_group: self.size_group,
            max_height_percent: self.max_height_percent,
            visible: self.visible,
        }
    }
}

impl ContainerView {
    /// A section heading: bold by markup, at the left edge.
    pub open spec fn heading(text: Seq<char>) -> LabelView {
        LabelView { text, markup: true, text_align: Align::Start, dim: false }
    }

    /// The fixed part as every view has it.
    pub open spec fn standard() -> ContainerView {
        ContainerView {
            system_heading: Self::heading(system_heading()),
            device_heading: Self::heading(device_heading()),
            orientation: Orientation::Vertical,
            spacing: SECTION_SPACING,
            halign: Align::Center,
            margin_top: TOP_MARGIN,
            size_group: Orientation::Horizontal,
            max_height_percent: MAX_HEIGHT_PERCENT,
            visible: true,
        }
    }
}

/// The view of updatable firmware.
#[derive(Debug)]
pub struct DevicesView {
    container: Container,
    device_firmware: ListBox,
    system_firmware: ListBox,
}

/// The mathematical value of a [`DevicesView`].
#[verifier::ext_equal]
pub struct DevicesViewModel {
    pub container: ContainerView,
    pub device_firmware: ListBoxView,
    pub system_firmware: ListBoxView,
}

impl View for DevicesView {
    type V = DevicesViewModel;

    closed spec fn view(&self) -> DevicesViewModel {
        DevicesViewModel {
            container: self.container@,
            device_firmware: self.device_firmware@,
            system_firmware: self.system_firmware@,
        }
    }
}

impl DevicesViewModel {
    /// The view as it is made: both lists empty and in their first
    /// generation, the system list with room below it.
    pub open spec fn initial() -> DevicesViewModel {
        DevicesViewModel {
            container: ContainerView::standard(),
            device_firmware: ListBoxView::empty(FirmwareList::Device, 0),
            system_firmware: ListBoxView::empty(FirmwareList::System, SECTION_SPACING),
        }
    }

    /// The list of the section `which`.
    pub open spec fn list(self, which: FirmwareList) -> ListBoxView {
        match which {
            FirmwareList::System => self.system_firmware,
            FirmwareList::Device => self.device_firmware,
        }
    }

    /// The view with `list` in place of the list of the section `which`.
    pub open spec fn with_list(self, which: FirmwareList, list: ListBoxView) -> DevicesViewModel {
        match which {
            FirmwareList::System => DevicesViewModel { system_firmware: list, ..self },
            FirmwareList::Device => DevicesViewModel { device_firmware: list, ..self },
        }
    }

    /// The view after the row for `info` was added to the list `which`.
    pub open spec fn with_row(self, which: FirmwareList, info: FirmwareInfoView) -> DevicesViewModel {
        self.with_list(which, self.list(which).with_row(info))
    }

    /// The view with `button` in place of the button that `widget` names.
    pub open spec fn with_button(self, widget: WidgetRef, button: ButtonView) -> DevicesViewModel {
        self.with_list(
            widget.list,
            self.list(widget.list).with_button(widget.row as int, button),
        )
    }

    /// The view with `label` in place of the version label that `widget`
    /// names.
    pub open spec fn with_label(self, widget: WidgetRef, label: LabelView) -> DevicesViewModel {
        self.with_list(widget.list, self.list(widget.list).with_label(widget.row as int, label))
    }

    /// The view with `progress` in place of the progress bar that `widget`
    /// names.
    pub open spec fn with_progress(
        self,
        widget: WidgetRef,
        progress: ProgressBar,
    ) -> DevicesViewModel {
        self.with_list(
            widget.list,
            self.list(widget.list).with_progress(widget.row as int, progress),
        )
    }

    /// The view with `stack` in place of the stack that `widget` names.
    pub open spec fn with_stack(self, widget: WidgetRef, stack: Stack) -> DevicesViewModel {
        self.with_list(widget.list, self.list(widget.list).with_stack(widget.row as int, stack))
    }

    /// The view after all rows of both lists were destroyed.
    pub open spec fn cleared(self) -> DevicesViewModel {
        DevicesViewModel {
            device_firmware: self.device_firmware.cleared(),
            system_firmware: self.system_firmware.cleared(),
            ..self
        }
    }

    /// Whether `widget` names a widget of a row that is in the view now.
    pub open spec fn owns(self, widget: WidgetRef) -> bool {
        self.list(widget.list).owns(widget)
    }

    /// Whether `widget` names the part `part` of a row that is in the view
    /// now.
    pub open spec fn names(self, widget: WidgetRef, part: Part) -> bool {
        self.list(widget.list).names(widget, part)
    }

    /// Whether `widget` is the bundle of handles of a row that is in the
    /// view now.
    pub open spec fn holds(self, widget: DeviceWidget) -> bool {
        self.list(widget.button.list).holds(widget)
    }

    /// What holds of every view that was made by [`DevicesView::new`] and
    /// changed by its methods: the fixed part is the standard one, each list
    /// knows its section, and in each list every row but the first has a
    /// separator above it.
    pub open spec fn wf(self) -> bool {
        &&& self.container == ContainerView::standard()
        &&& self.system_firmware.kind == FirmwareList::System
        &&& self.device_firmware.kind == FirmwareList::Device
        &&& !self.system_firmware.selectable
        &&& !self.device_firmware.selectable
        &&& self.system_firmware.margin_bottom == SECTION_SPACING
        &&& self.device_firmware.margin_bottom == 0
        &&& self.system_firmware.separated()
        &&& self.device_firmware.separated()
    }
}

impl DevicesView {
    /// Makes the view with its two sections, both lists empty.
    pub fn new() -> (view: DevicesView)
        ensures
            view@ == DevicesViewModel::initial(),
            view@.wf(),
    {
        let system_firmware = ListBox::new(FirmwareList::System, SECTION_SPACING);
        let device_firmware = ListBox::new(FirmwareList::Device, 0);
        let container = Container {
            system_heading: Label {
                text: "<b>System Firmware</b>".to_owned(),
                markup: true,
                text_align: Align::Start,
                dim: false,
            },
            device_heading: Label {
                text: "<b>Device Firmware</b>".to_owned(),
                markup: true,
                text_align: Align::Start,
                dim: false,
            },
            orientation: Orientation::Vertical,
            spacing: SECTION_SPACING,
            halign: Align::Center,
            margin_top: TOP_MARGIN,
            size_group: Orientation::Horizontal,
            max_height_percent: MAX_HEIGHT_PERCENT,
            visible: true,
        };
        DevicesView { container, device_firmware, system_firmware }
    }

    /// The fixed part of the view.
    pub fn container(&self) -> (container: &Container)
        ensures
            container@ == self@.container,
    {
        &self.container
    }

    /// The list of system firmware.
    pub fn system_firmware(&self) -> (list: &ListBox)
        ensures
            list@ == self@.system_firmware,
    {
        &self.system_firmware
    }

    /// The list of device firmware.
    pub fn device_firmware(&self) -> (list: &ListBox)
        ensures
            list@ == self@.device_firmware,
    {
        &self.device_firmware
    }

    /// The list of the section `which`.
    pub fn list(&self, which: FirmwareList) -> (list: &ListBox)
        ensures
            list@ == self@.list(which),
    {
        match which {
            FirmwareList::System => &self.system_firmware,
            FirmwareList::Device => &self.device_firmware,
        }
    }

    /// Whether `widget` names a widget of a row that is in the view now.
    pub fn owns(&self, widget: &WidgetRef) -> (owned: bool)
        ensures
            owned == self@.owns(*widget),
    {
        self.list(widget.list).owns(widget)
    }

    /// The row that `widget` is the bundle of handles of, if that row is in
    /// the view now.
    pub fn row(&self, widget: &DeviceWidget) -> (row: Option<&Row>)
        ensures
            row is Some <==> self@.holds(*widget),
            row is Some ==> row.unwrap()@ == self@.list(
                widget.button.list,
            ).rows[widget.button.row as int],
    {
        self.list(widget.button.list).row(widget)
    }

    /// The button that `widget` names, to read and to change. A handle that
    /// names no button of a row that is in the view now gives nothing.
    pub fn button_mut(&mut self, widget: &WidgetRef) -> (button: Option<&mut Button>)
        ensures
            button is Some <==> old(self)@.names(*widget, Part::Button),
            button is Some ==> (*button.unwrap())@ == old(self)@.list(
                widget.list,
            ).rows[widget.row as int].button,
            button is Some ==> final(self)@ == old(self)@.with_button(
                *widget,
                (*final(button.unwrap()))@,
            ),
            button is None ==> final(self)@ == old(self)@,
            old(self)@.wf() ==> final(self)@.wf(),
    {
        match widget.list {
            FirmwareList::System => self.system_firmware.button_mut(widget),
            FirmwareList::Device => self.device_firmware.button_mut(widget),
        }
    }

    /// The version label that `widget` names, to read and to change. A
    /// handle that names no version label of a row that is in the view now
    /// gives nothing.
    pub fn label_mut(&mut self, widget: &WidgetRef) -> (label: Option<&mut Label>)
        ensures
            label is Some <==> old(self)@.names(*widget, Part::Label),
            label is Some ==> (*label.unwrap())@ == old(self)@.list(
                widget.list,
            ).rows[widget.row as int].version,
            label is Some ==> final(self)@ == old(self)@.with_label(
                *widget,
                (*final(label.unwrap()))@,
            ),
            label is None ==> final(self)@ == old(self)@,
            old(self)@.wf() ==> final(self)@.wf(),
    {
        match widget.list {
            FirmwareList::System => self.system_firmware.label_mut(widget),
            FirmwareList::Device => self.device_firmware.label_mut(widget),
        }
    }

    /// The progress bar that `widget` names, to read and to change. A handle
    /// that names no progress bar of a row that is in the view now gives
    /// nothing.
    pub fn progress_mut(&mut self, widget: &WidgetRef) -> (progress: Option<&mut ProgressBar>)
        ensures
            progress is Some <==> old(self)@.names(*widget, Part::Progress),
            progress is Some ==> *progress.unwrap() == old(self)@.list(
                widget.list,
            ).rows[widget.row as int].progress,
            progress is Some ==> final(self)@ == old(self)@.with_progress(
                *widget,
                *final(progress.unwrap()),
            ),
            progress is None ==> final(self)@ == old(self)@,
            old(self)@.wf() ==> final(self)@.wf(),
    {
        match widget.list {
            FirmwareList::System => self.system_firmware.progress_mut(widget),
            FirmwareList::Device => self.device_firmware.progress_mut(widget),
        }
    }

    /// The stack that `widget` names, to read and to change. A handle that
    /// names no stack of a row that is in the view now gives nothing.
    pub fn stack_mut(&mut self, widget: &WidgetRef) -> (stack: Option<&mut Stack>)
        ensures
            stack is Some <==> old(self)@.names(*widget, Part::Stack),
            stack is Some ==> *stack.unwrap() == old(self)@.list(
                widget.list,
            ).rows[widget.row as int].stack,
            stack is Some ==> final(self)@ == old(self)@.with_stack(
                *widget,
                *final(stack.unwrap()),
            ),
            stack is None ==> final(self)@ == old(self)@,
            old(self)@.wf() ==> final(self)@.wf(),
    {
        match widget.list {
            FirmwareList::System => self.system_firmware.stack_mut(widget),
            FirmwareList::Device => self.device_firmware.stack_mut(widget),
        }
    }

    /// Destroys every row of both lists. No handle that was given out before
    /// names anything in the view afterwards.
    pub fn clear(&mut self)
        ensures
            final(self)@ == old(self)@.cleared(),
            final(self)@.system_firmware.rows.len() == 0,
            final(self)@.device_firmware.rows.len() == 0,
            forall|widget: WidgetRef| !final(self)@.owns(widget),
            old(self)@.wf() ==> final(self)@.wf(),
    {
        self.system_firmware.clear();
        self.device_firmware.clear();
    }

    /// Adds a row for `info` at the end of the device firmware list and
    /// returns the handles to its widgets.
    pub fn device(&mut self, info: &FirmwareInfo) -> (widget: DeviceWidget)
        ensures
            final(self)@ == old(self)@.with_row(FirmwareList::Device, info@),
            widget == old(self)@.device_firmware.next_widget(),
            final(self)@.device_firmware.rows.last().button.visible
                == (info@.current != info@.latest),
            final(self)@.device_firmware.rows.last().stack.visible_child == Page::Button,
            final(self)@.device_firmware.holds(widget),
            !old(self)@.device_firmware.holds(widget),
            old(self)@.wf() ==> final(self)@.wf(),
            old(self)@.wf() ==> final(self)@.holds(widget) && !old(self)@.holds(widget),
    {
        Self::append(&mut self.device_firmware, info)
    }

    /// Adds a row for `info` at the end of the system firmware list and
    /// returns the handles to its widgets.
    pub fn system(&mut self, info: &FirmwareInfo) -> (widget: DeviceWidget)
        ensures
            final(self)@ == old(self)@.with_row(FirmwareList::System, info@),
            widget == old(self)@.system_firmware.next_widget(),
            final(self)@.system_firmware.rows.last().button.visible
                == (info@.current != info@.latest),
            final(self)@.system_firmware.rows.last().stack.visible_child == Page::Button,
            final(self)@.system_firmware.holds(widget),
            !old(self)@.system_firmware.holds(widget),
            old(self)@.wf() ==> final(self)@.wf(),
            old(self)@.wf() ==> final(self)@.holds(widget) && !old(self)@.holds(widget),
    {
        Self::append(&mut self.system_firmware, info)
    }

    /// Builds the row for `info`, adds it at the end of `container` and
    /// returns the handles to its button, version label, progress bar and
    /// stack.
    fn append(container: &mut ListBox, info: &FirmwareInfo) -> (widget: DeviceWidget)
        ensures
            final(container)@ == old(container)@.with_row(info@),
            widget == old(container)@.next_widget(),
            final(container)@.rows.last().button.visible == (info@.current != info@.latest),
            final(container)@.rows.last().stack.visible_child == Page::Button,
            old(container)@.separated() ==> final(container)@.separated(),
            final(container)@.holds(widget),
            !old(container)@.holds(widget),
    {
        let device = Label {
            text: info.name.clone(),
            markup: false,
            text_align: Align::Start,
            dim: false,
        };

        let label = Label {
            text: info.current.clone(),
            markup: false,
            text_align: Align::Start,
            dim: true,
        };

        let button = Button {
            label: "Update".to_owned(),
            halign: Align::End,
            hexpand: true,
            visible: !(info.current == info.latest),
            suggested: true,
        };

        let progress = ProgressBar {
            pulse_step_percent: PULSE_STEP_PERCENT,
            pulses: 1,
            visible: true,
        };

        let stack = Stack { visible_child: Page::Button, visible: true };

        let widget = DeviceWidget::new(container.kind(), container.generation(), container.len());

        container.add(
            Row {
                name: device,
                version: label,
                button,
                progress,
                stack,
                grid: Grid {
                    border_width: ROW_SPACING,
                    column_spacing: ROW_SPACING,
                    name: Cell { left: 0, top: 0, width: 1, height: 1 },
                    version: Cell { left: 0, top: 1, width: 1, height: 1 },
                    stack: Cell { left: 1, top: 0, width: 1, height: 2 },
                },
                header: None,
                visible: true,
            },
        );

        widget
    }
}

} // verus!

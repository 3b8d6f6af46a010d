use devices_view::{
    separator_header, Align, Button, Cell, DevicesView, FirmwareInfo, FirmwareList, Grid, Label,
    Orientation, Page, ProgressBar, Row, Separator, Stack,
};

fn info(name: &str, current: &str, latest: &str) -> FirmwareInfo {
    FirmwareInfo {
        name: name.to_string(),
        current: current.to_string(),
        latest: latest.to_string(),
    }
}

fn plain_row(name: &str) -> Row {
    Row {
        name: Label {
            text: name.to_string(),
            markup: false,
            text_align: Align::Start,
            dim: false,
        },
        version: Label {
            text: "1".to_string(),
            markup: false,
            text_align: Align::Start,
            dim: true,
        },
        button: Button {
            label: "Update".to_string(),
            halign: Align::End,
            hexpand: true,
            visible: true,
            suggested: true,
        },
        progress: ProgressBar { pulse_step_percent: 33, pulses: 1, visible: true },
        stack: Stack { visible_child: Page::Button, visible: true },
        grid: Grid {
            border_width: 12,
            column_spacing: 12,
            name: Cell { left: 0, top: 0, width: 1, height: 1 },
            version: Cell { left: 0, top: 1, width: 1, height: 1 },
            stack: Cell { left: 1, top: 0, width: 1, height: 2 },
        },
        header: None,
        visible: true,
    }
}

#[test]
fn system_row_for_bios_shows_its_button() {
    let mut view = DevicesView::new();
    let widget = view.system(&info("BIOS", "1.0", "1.2"));

    assert_eq!(view.system_firmware().len(), 1);
    assert_eq!(view.device_firmware().len(), 0);
    let row = view.row(&widget).expect("the new row is in the view");
    assert_eq!(row.name.text, "BIOS");
    assert_eq!(row.version.text, "1.0");
    assert!(row.button.visible);
    assert_eq!(row.stack.visible_child, Page::Button);
}

#[test]
fn device_row_for_current_mouse_firmware_hides_its_button() {
    let mut view = DevicesView::new();
    let widget = view.device(&info("Mouse FW", "3.0", "3.0"));

    assert_eq!(view.device_firmware().len(), 1);
    assert_eq!(view.system_firmware().len(), 0);
    let row = view.row(&widget).expect("the new row is in the view");
    assert_eq!(row.name.text, "Mouse FW");
    assert_eq!(row.version.text, "3.0");
    assert!(!row.button.visible);
}

#[test]
fn button_is_hidden_when_versions_are_equal() {
    for version in ["", "0", "1.0", "1.0.0-rc1", "2024.03", " 1.0"] {
        let mut view = DevicesView::new();
        let device = view.device(&info("Dock", version, version));
        let system = view.system(&info("Board", version, version));
        assert!(!view.row(&device).unwrap().button.visible, "device, {version:?}");
        assert!(!view.row(&system).unwrap().button.visible, "system, {version:?}");
    }
}

#[test]
fn button_is_visible_when_versions_differ() {
    let pairs = [
        ("1.0", "1.1"),
        ("1.1", "1.0"),
        ("", "1"),
        ("1", ""),
        ("1.0", "1.0 "),
        ("1.0", "1.00"),
        ("a", "A"),
    ];
    for (current, latest) in pairs {
        let mut view = DevicesView::new();
        let device = view.device(&info("Dock", current, latest));
        let system = view.system(&info("Board", current, latest));
        assert!(view.row(&device).unwrap().button.visible, "device, {current:?} {latest:?}");
        assert!(view.row(&system).unwrap().button.visible, "system, {current:?} {latest:?}");
    }
}

#[test]
fn stack_starts_on_the_button_page() {
    let mut view = DevicesView::new();
    let widgets = [
        view.device(&info("A", "1", "2")),
        view.device(&info("B", "2", "2")),
        view.system(&info("C", "", "")),
        view.system(&info("D", "9", "")),
    ];
    for widget in widgets {
        let row = view.row(&widget).unwrap();
        assert_eq!(row.stack.visible_child, Page::Button);
        assert_ne!(row.stack.visible_child, Page::Progress);
        assert!(row.stack.visible);
    }
}

#[test]
fn row_is_laid_out_as_a_two_column_grid() {
    let mut view = DevicesView::new();
    let widget = view.device(&info("Thunderbolt Dock", "41.2", "43.0"));
    let row = view.row(&widget).unwrap();

    assert_eq!(
        row.name,
        Label {
            text: "Thunderbolt Dock".to_string(),
            markup: false,
            text_align: Align::Start,
            dim: false,
        }
    );
    assert_eq!(
        row.version,
        Label { text: "41.2".to_string(), markup: false, text_align: Align::Start, dim: true }
    );
    assert_eq!(
        row.button,
        Button {
            label: "Update".to_string(),
            halign: Align::End,
            hexpand: true,
            visible: true,
            suggested: true,
        }
    );
    assert_eq!(row.progress, ProgressBar { pulse_step_percent: 33, pulses: 1, visible: true });
    assert_eq!(row.stack, Stack { visible_child: Page::Button, visible: true });
    assert_eq!(
        row.grid,
        Grid {
            border_width: 12,
            column_spacing: 12,
            name: Cell { left: 0, top: 0, width: 1, height: 1 },
            version: Cell { left: 0, top: 1, width: 1, height: 1 },
            stack: Cell { left: 1, top: 0, width: 1, height: 2 },
        }
    );
    assert_eq!(row.header, None);
    assert!(row.visible);
}

#[test]
fn empty_strings_give_empty_labels() {
    let mut view = DevicesView::new();
    let widget = view.system(&info("", "", ""));
    let row = view.row(&widget).unwrap();
    assert_eq!(row.name.text, "");
    assert_eq!(row.version.text, "");
    assert!(!row.button.visible);
    assert_eq!(row.button.label, "Update");
    assert_eq!(row.stack.visible_child, Page::Button);
}

#[test]
fn latest_version_is_not_shown_in_the_row() {
    let mut view = DevicesView::new();
    let widget = view.device(&info("Keyboard", "0.7", "0.9"));
    let row = view.row(&widget).unwrap();
    assert_eq!(row.version.text, "0.7");
    assert_ne!(row.name.text, "0.9");
    assert_ne!(row.button.label, "0.9");
}

#[test]
fn separators_stand_before_every_row_but_the_first() {
    let mut view = DevicesView::new();
    for i in 0..6 {
        view.device(&info(&format!("device {i}"), "1", "2"));
    }
    for i in 0..4 {
        view.system(&info(&format!("system {i}"), "1", "1"));
    }
    for which in [FirmwareList::Device, FirmwareList::System] {
        let list = view.list(which);
        assert!(list.get(0).unwrap().header.is_none());
        for i in 1..list.len() {
            assert_eq!(
                list.get(i).unwrap().header,
                Some(Separator { orientation: Orientation::Horizontal }),
                "row {i} of {which:?}"
            );
        }
    }
    assert_eq!(view.device_firmware().len(), 6);
    assert_eq!(view.system_firmware().len(), 4);
}

#[test]
fn single_row_has_no_separator() {
    let mut view = DevicesView::new();
    view.device(&info("only", "1", "2"));
    view.system(&info("only", "1", "2"));
    assert_eq!(view.device_firmware().get(0).unwrap().header, None);
    assert_eq!(view.system_firmware().get(0).unwrap().header, None);
}

#[test]
fn first_row_after_clear_has_no_separator() {
    let mut view = DevicesView::new();
    view.device(&info("a", "1", "2"));
    view.device(&info("b", "1", "2"));
    view.clear();
    view.device(&info("c", "1", "2"));
    view.device(&info("d", "1", "2"));
    assert_eq!(view.device_firmware().get(0).unwrap().header, None);
    assert_eq!(view.device_firmware().get(0).unwrap().name.text, "c");
    assert!(view.device_firmware().get(1).unwrap().header.is_some());
}

#[test]
fn rows_keep_the_order_in_which_they_were_added() {
    let mut view = DevicesView::new();
    let names = ["Embedded Controller", "BIOS", "Management Engine"];
    for name in names {
        view.system(&info(name, "1", "2"));
    }
    for (i, name) in names.iter().enumerate() {
        assert_eq!(view.system_firmware().get(i).unwrap().name.text, *name);
    }
    assert!(view.system_firmware().get(names.len()).is_none());
}

#[test]
fn separator_header_leaves_the_first_row_alone() {
    let mut row = plain_row("first");
    let before = row.clone();
    separator_header(&mut row, None);
    assert_eq!(row, before);
    assert_eq!(row.header, None);
}

#[test]
fn separator_header_puts_a_separator_above_a_later_row() {
    let first = plain_row("first");
    let mut row = plain_row("second");
    separator_header(&mut row, Some(&first));

    let mut expected = plain_row("second");
    expected.header = Some(Separator { orientation: Orientation::Horizontal });
    assert_eq!(row, expected);
}

#[test]
fn separator_header_keeps_a_header_that_the_first_row_has() {
    let mut row = plain_row("first");
    row.header = Some(Separator { orientation: Orientation::Vertical });
    separator_header(&mut row, None);
    assert_eq!(row.header, Some(Separator { orientation: Orientation::Vertical }));
}

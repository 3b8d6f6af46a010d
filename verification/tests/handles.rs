use devices_view::{DeviceWidget, DevicesView, FirmwareInfo, FirmwareList, Page, Row};

fn info(name: &str, current: &str, latest: &str) -> FirmwareInfo {
    FirmwareInfo {
        name: name.to_string(),
        current: current.to_string(),
        latest: latest.to_string(),
    }
}

fn rows(view: &DevicesView, which: FirmwareList) -> Vec<Row> {
    let list = view.list(which);
    (0..list.len()).map(|i| list.get(i).unwrap().clone()).collect()
}

#[test]
fn stack_can_be_switched_to_the_progress_bar_and_back() {
    let mut view = DevicesView::new();
    let widget = view.device(&info("Dock", "1.0", "1.1"));

    let stack = view.stack_mut(&widget.stack).expect("the stack is in the view");
    assert_eq!(stack.visible_child, Page::Button);
    stack.visible_child = Page::Progress;
    assert_eq!(view.row(&widget).unwrap().stack.visible_child, Page::Progress);

    view.stack_mut(&widget.stack).unwrap().visible_child = Page::Button;
    assert_eq!(view.row(&widget).unwrap().stack.visible_child, Page::Button);
}

#[test]
fn button_can_be_hidden_and_label_rewritten_when_an_update_is_done() {
    let mut view = DevicesView::new();
    let widget = view.system(&info("BIOS", "1.0", "1.2"));
    assert!(view.row(&widget).unwrap().button.visible);

    view.button_mut(&widget.button).unwrap().visible = false;
    view.label_mut(&widget.label).unwrap().text = "1.2".to_string();

    let row = view.row(&widget).unwrap();
    assert!(!row.button.visible);
    assert_eq!(row.version.text, "1.2");
    assert_eq!(row.name.text, "BIOS");
    assert_eq!(row.button.label, "Update");
}

#[test]
fn progress_bar_can_be_pulsed() {
    let mut view = DevicesView::new();
    let widget = view.device(&info("Dock", "1.0", "1.1"));

    let progress = view.progress_mut(&widget.progress).unwrap();
    assert_eq!(progress.pulses, 1);
    assert_eq!(progress.pulse_step_percent, 33);
    progress.pulses += 1;

    assert_eq!(view.row(&widget).unwrap().progress.pulses, 2);
    assert_eq!(view.row(&widget).unwrap().progress.pulse_step_percent, 33);
}

#[test]
fn change_through_a_handle_touches_one_widget_only() {
    let mut view = DevicesView::new();
    let mut widgets = Vec::new();
    for i in 0..4 {
        widgets.push(view.device(&info(&format!("device {i}"), "1", "2")));
        view.system(&info(&format!("system {i}"), "1", "2"));
    }
    let device_before = rows(&view, FirmwareList::Device);
    let system_before = rows(&view, FirmwareList::System);

    view.stack_mut(&widgets[2].stack).unwrap().visible_child = Page::Progress;

    let device_after = rows(&view, FirmwareList::Device);
    assert_eq!(rows(&view, FirmwareList::System), system_before);
    assert_eq!(device_after.len(), device_before.len());
    for i in [0, 1, 3] {
        assert_eq!(device_after[i], device_before[i]);
    }
    let mut expected = device_before[2].clone();
    expected.stack.visible_child = Page::Progress;
    assert_eq!(device_after[2], expected);
    for widget in &widgets {
        assert!(view.row(widget).is_some());
    }
}

#[test]
fn accessor_gives_nothing_for_a_handle_to_another_part() {
    let mut view = DevicesView::new();
    let widget = view.device(&info("Dock", "1.0", "1.1"));

    assert!(view.button_mut(&widget.stack).is_none());
    assert!(view.button_mut(&widget.label).is_none());
    assert!(view.button_mut(&widget.progress).is_none());
    assert!(view.label_mut(&widget.button).is_none());
    assert!(view.progress_mut(&widget.stack).is_none());
    assert!(view.stack_mut(&widget.progress).is_none());

    assert!(view.button_mut(&widget.button).is_some());
    assert!(view.label_mut(&widget.label).is_some());
    assert!(view.progress_mut(&widget.progress).is_some());
    assert!(view.stack_mut(&widget.stack).is_some());
}

#[test]
fn accessors_give_nothing_for_stale_handles() {
    let mut view = DevicesView::new();
    let stale = view.device(&info("old", "1", "2"));
    view.clear();

    assert!(view.button_mut(&stale.button).is_none());
    assert!(view.label_mut(&stale.label).is_none());
    assert!(view.progress_mut(&stale.progress).is_none());
    assert!(view.stack_mut(&stale.stack).is_none());

    let fresh = view.device(&info("new", "1", "2"));
    assert!(view.stack_mut(&stale.stack).is_none());
    assert!(view.button_mut(&stale.button).is_none());
    assert_eq!(view.row(&fresh).unwrap().stack.visible_child, Page::Button);
    assert!(view.stack_mut(&fresh.stack).is_some());
}

#[test]
fn accessors_give_nothing_for_handles_of_an_empty_view() {
    let mut view = DevicesView::new();
    for which in [FirmwareList::System, FirmwareList::Device] {
        let widget = DeviceWidget::new(which, 0, 0);
        assert!(view.button_mut(&widget.button).is_none());
        assert!(view.label_mut(&widget.label).is_none());
        assert!(view.progress_mut(&widget.progress).is_none());
        assert!(view.stack_mut(&widget.stack).is_none());
        assert!(view.row(&widget).is_none());
    }
}

#[test]
fn row_added_after_a_change_still_starts_on_its_button() {
    let mut view = DevicesView::new();
    let first = view.device(&info("first", "1", "2"));
    view.stack_mut(&first.stack).unwrap().visible_child = Page::Progress;
    view.button_mut(&first.button).unwrap().visible = false;

    let second = view.device(&info("second", "1", "2"));
    let row = view.row(&second).unwrap();
    assert_eq!(row.stack.visible_child, Page::Button);
    assert!(row.button.visible);
    assert!(row.header.is_some());
    assert_eq!(view.row(&first).unwrap().stack.visible_child, Page::Progress);
}

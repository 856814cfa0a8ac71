use devices_view::devices::DevicesView;
use devices_view::devices::separator_header;
use devices_view::model::{FirmwareInfo, Focus, Key, Row, Section};

fn info(name: &str, version: &str) -> FirmwareInfo {
    FirmwareInfo { name: String::from(name), version: String::from(version) }
}

#[test]
fn new_view_has_no_rows() {
    let v = DevicesView::new();
    assert_eq!(v.system_firmware.len(), 0);
    assert_eq!(v.device_firmware.len(), 0);
    assert!(matches!(v.focus, Focus::Nowhere));
}

#[test]
fn rows_match_calls_in_order() {
    let mut v = DevicesView::new();
    v.system(info("thelio-io", "1.0"));
    v.device(info("hub", "3.1"));
    v.system(info("uefi", "2.4"));
    v.device(info("dock", "0.9"));
    v.device(info("mouse", "7"));
    assert_eq!(v.system_firmware.len(), 2);
    assert_eq!(v.device_firmware.len(), 3);
    assert_eq!(v.system_firmware[0].info.name, "thelio-io");
    assert_eq!(v.system_firmware[1].info.name, "uefi");
    assert_eq!(v.device_firmware[0].info.name, "hub");
    assert_eq!(v.device_firmware[1].info.name, "dock");
    assert_eq!(v.device_firmware[2].info.name, "mouse");
    assert_eq!(v.device_firmware[1].info.version, "0.9");
}

#[test]
fn returned_handles_address_the_new_rows() {
    let mut v = DevicesView::new();
    let h1 = v.system(info("a", "1"));
    let h2 = v.device(info("b", "2"));
    let h3 = v.device(info("c", "3"));
    assert!(matches!(h1.section, Section::System));
    assert_eq!(h1.index, 0);
    assert!(matches!(h2.section, Section::Device));
    assert_eq!(h2.index, 0);
    assert!(matches!(h3.section, Section::Device));
    assert_eq!(h3.index, 1);
}

#[test]
fn only_the_first_row_lacks_a_separator() {
    let mut v = DevicesView::new();
    v.system(info("a", "1"));
    v.system(info("b", "2"));
    v.system(info("c", "3"));
    v.device(info("d", "4"));
    v.device(info("e", "5"));
    assert!(!v.system_firmware[0].has_separator);
    assert!(v.system_firmware[1].has_separator);
    assert!(v.system_firmware[2].has_separator);
    assert!(!v.device_firmware[0].has_separator);
    assert!(v.device_firmware[1].has_separator);
}

#[test]
fn separator_header_follows_the_predecessor() {
    let mut row = Row { info: info("a", "1"), has_separator: false, presses: 4 };
    let before = Row { info: info("b", "2"), has_separator: false, presses: 0 };
    separator_header(&mut row, Some(&before));
    assert!(row.has_separator);
    assert_eq!(row.presses, 4);
    assert_eq!(row.info.name, "a");
    separator_header(&mut row, None);
    assert!(!row.has_separator);
}

#[test]
fn clear_empties_both_sections() {
    let mut v = DevicesView::new();
    v.system(info("a", "1"));
    v.system(info("b", "2"));
    v.device(info("c", "3"));
    v.focus_system_row(1);
    v.clear();
    assert_eq!(v.system_firmware.len(), 0);
    assert_eq!(v.device_firmware.len(), 0);
    assert!(matches!(v.focus, Focus::Nowhere));
    // Idempotent: clearing an already-empty view changes nothing.
    v.clear();
    assert_eq!(v.system_firmware.len(), 0);
    assert_eq!(v.device_firmware.len(), 0);
    assert!(matches!(v.focus, Focus::Nowhere));
}

fn two_and_two() -> DevicesView {
    let mut v = DevicesView::new();
    v.system(info("s1", "1"));
    v.system(info("s2", "2"));
    v.device(info("d1", "3"));
    v.device(info("d2", "4"));
    v
}

#[test]
fn down_from_last_system_row_reaches_first_device_row() {
    let mut v = two_and_two();
    v.focus_system_row(1);
    let handled = v.key_press(Key::Down);
    assert!(handled);
    assert!(matches!(v.focus, Focus::OnDevice(0)));
}

#[test]
fn up_from_first_device_row_reaches_last_system_row() {
    let mut v = two_and_two();
    v.focus_device_row(0);
    let handled = v.key_press(Key::Up);
    assert!(handled);
    assert!(matches!(v.focus, Focus::OnSystem(1)));
}

#[test]
fn down_into_empty_device_section_is_unhandled() {
    let mut v = DevicesView::new();
    v.system(info("s1", "1"));
    v.system(info("s2", "2"));
    v.focus_system_row(1);
    let handled = v.key_press(Key::Down);
    assert!(!handled);
    assert!(matches!(v.focus, Focus::OnSystem(1)));
}

#[test]
fn up_into_empty_system_section_is_unhandled() {
    let mut v = DevicesView::new();
    v.device(info("d1", "1"));
    v.focus_device_row(0);
    let handled = v.key_press(Key::Up);
    assert!(!handled);
    assert!(matches!(v.focus, Focus::OnDevice(0)));
}

#[test]
fn presses_inside_a_section_are_not_intercepted() {
    let mut v = two_and_two();
    v.focus_system_row(0);
    assert!(!v.key_press(Key::Down), "down from a non-last system row");
    assert!(matches!(v.focus, Focus::OnSystem(0)));
    v.focus_device_row(1);
    assert!(!v.key_press(Key::Up), "up from a non-first device row");
    assert!(matches!(v.focus, Focus::OnDevice(1)));
    v.focus_system_row(1);
    assert!(!v.key_press(Key::Other), "a non-directional key");
    assert!(matches!(v.focus, Focus::OnSystem(1)));
    assert!(!v.key_press(Key::Up), "up from within the system section");
    assert!(matches!(v.focus, Focus::OnSystem(1)));
}

#[test]
fn key_presses_with_no_focus_are_unhandled() {
    let mut v = two_and_two();
    assert!(!v.key_press(Key::Down));
    assert!(!v.key_press(Key::Up));
    assert!(matches!(v.focus, Focus::Nowhere));
}

#[test]
fn row_activation_equals_direct_control_press() {
    let mut activated = two_and_two();
    let mut pressed = two_and_two();
    let h_act = activated.device(info("extra", "5"));
    let h_press = pressed.device(info("extra", "5"));
    activated.activate_row(h_act);
    pressed.press_control(h_press);
    for i in 0..activated.device_firmware.len() {
        assert_eq!(activated.device_firmware[i].presses, pressed.device_firmware[i].presses);
    }
    for i in 0..activated.system_firmware.len() {
        assert_eq!(activated.system_firmware[i].presses, pressed.system_firmware[i].presses);
    }
    assert_eq!(activated.device_firmware[2].presses, 1);
    assert_eq!(pressed.device_firmware[2].presses, 1);
}

#[test]
fn presses_accumulate_on_one_control_only() {
    let mut v = two_and_two();
    let h = v.system(info("s3", "9"));
    v.press_control(h);
    v.activate_row(h);
    v.press_control(h);
    assert_eq!(v.system_firmware[2].presses, 3);
    assert_eq!(v.system_firmware[0].presses, 0);
    assert_eq!(v.system_firmware[1].presses, 0);
    assert_eq!(v.device_firmware[0].presses, 0);
    assert_eq!(v.device_firmware[1].presses, 0);
}

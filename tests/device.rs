use retroswiper::device::device_path;

#[test]
fn device_node_from_device_list() {
    let list = "I: Bus=0019 Vendor=0000\nN: Name=\"Power Button\"\nH: Handlers=kbd event0 \n\n\
I: Bus=0003 Vendor=0801\nN: Name=\"HID 0801:0001\"\nP: Phys=usb-0000:00:14.0-1/input0\n\
H: Handlers=sysrq kbd leds event5 \nB: EV=120013\n";
    assert_eq!(device_path(list), Some("/dev/input/event5".to_string()));
}

#[test]
fn no_reader_listed() {
    let list = "I: Bus=0019\nN: Name=\"Power Button\"\nH: Handlers=kbd event0 \n";
    assert_eq!(device_path(list), None);
    assert_eq!(device_path(""), None);
}

#[test]
fn reader_without_event_handler() {
    let list = "N: Name=\"HID 0801:0001\"\nH: Handlers=sysrq kbd\n";
    assert_eq!(device_path(list), None);
}

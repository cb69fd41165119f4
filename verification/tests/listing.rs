use printer_gateway::ports::{
    classify, describe_ports, kind_label, PortClass, PortKind, RawPort, UsbInfo,
};
use printer_gateway::spooler::sanitize_printer_names;

fn raw(name: &str, class: PortClass) -> RawPort {
    RawPort { port_name: name.to_string(), class }
}

#[test]
fn usb_device_keeps_its_identification() {
    let d = classify(raw(
        "COM3",
        PortClass::Usb(UsbInfo {
            vid: 0x04B8,
            pid: 0x0202,
            manufacturer: Some("Seiko Epson".to_string()),
            product: Some("TM-T88V".to_string()),
            serial_number: None,
        }),
    ));
    assert_eq!(d.port_name, "COM3");
    assert_eq!(d.port_type, PortKind::Usb);
    assert_eq!(d.manufacturer.as_deref(), Some("Seiko Epson"));
    assert_eq!(d.product.as_deref(), Some("TM-T88V"));
    assert_eq!(d.serial_number, None);
    assert_eq!(d.vid, Some(0x04B8));
    assert_eq!(d.pid, Some(0x0202));
}

#[test]
fn non_usb_devices_carry_no_identification() {
    let b = classify(raw("rfcomm0", PortClass::Bluetooth));
    assert_eq!(b.port_type, PortKind::Bluetooth);
    assert_eq!(b.manufacturer, None);
    assert_eq!(b.vid, None);

    let p = classify(raw("ttyS0", PortClass::Pci));
    assert_eq!(p.port_type, PortKind::Pci);
    assert_eq!(p.pid, None);

    let u = classify(raw("ttyUSB9", PortClass::Unknown));
    assert_eq!(u.port_type, PortKind::Unknown);
    assert_eq!(u.serial_number, None);
}

#[test]
fn listing_is_sorted_ascending_by_name() {
    let ports = vec![
        raw("ttyUSB1", PortClass::Unknown),
        raw("COM9", PortClass::Pci),
        raw("COM10", PortClass::Bluetooth),
        raw("ttyS0", PortClass::Unknown),
    ];
    let listed = describe_ports(ports);
    let names: Vec<&str> = listed.iter().map(|d| d.port_name.as_str()).collect();
    assert_eq!(names, vec!["COM10", "COM9", "ttyS0", "ttyUSB1"]);
}

#[test]
fn listing_keeps_every_device_once() {
    let ports = vec![
        raw("b", PortClass::Unknown),
        raw("a", PortClass::Pci),
        raw("c", PortClass::Bluetooth),
    ];
    let listed = describe_ports(ports);
    assert_eq!(listed.len(), 3);
    let names: Vec<&str> = listed.iter().map(|d| d.port_name.as_str()).collect();
    assert_eq!(names, vec!["a", "b", "c"]);
    assert_eq!(listed[0].port_type, PortKind::Pci);
    assert_eq!(listed[1].port_type, PortKind::Unknown);
    assert_eq!(listed[2].port_type, PortKind::Bluetooth);
}

#[test]
fn printer_names_are_cleaned_sorted_and_deduplicated() {
    let names = vec![
        "Receipt Printer".to_string(),
        "".to_string(),
        "   ".to_string(),
        "Office Laser".to_string(),
        "Receipt Printer".to_string(),
        "\t\n".to_string(),
        "Archive PDF".to_string(),
    ];
    let cleaned = sanitize_printer_names(names);
    assert_eq!(
        cleaned,
        vec![
            "Archive PDF".to_string(),
            "Office Laser".to_string(),
            "Receipt Printer".to_string(),
        ]
    );
}

#[test]
fn all_blank_printer_names_leave_an_empty_listing() {
    let names = vec![" ".to_string(), "\t".to_string(), String::new()];
    let cleaned = sanitize_printer_names(names);
    assert!(cleaned.is_empty());
}

#[test]
fn kind_labels_are_fixed() {
    assert_eq!(kind_label(PortKind::Usb), "usb");
    assert_eq!(kind_label(PortKind::Bluetooth), "bluetooth");
    assert_eq!(kind_label(PortKind::Pci), "pci");
    assert_eq!(kind_label(PortKind::Unknown), "unknown");
}

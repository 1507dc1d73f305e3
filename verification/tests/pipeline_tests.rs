//! The full adapter section, from a raw snapshot to the rendered plan.

use getmacaddress::output::plan_for_snapshot;
use getmacaddress::parse::{RawAdapterBuffer, RawAdapterNode};

fn wide(text: &str) -> Vec<u16> {
    let mut units: Vec<u16> = text.encode_utf16().collect();
    units.push(0);
    units
}

fn node(
    if_type: u32,
    description: &str,
    mac: Vec<u8>,
    next: Option<usize>,
) -> RawAdapterNode {
    let mac_len = mac.len() as u32;
    RawAdapterNode {
        if_type,
        description: Some(wide(description)),
        physical_address: mac,
        physical_address_length: mac_len,
        next,
    }
}

#[test]
fn two_wifi_adapters_show_both_and_copy_the_physical_one() {
    let buffer = RawAdapterBuffer {
        head: Some(0),
        nodes: vec![
            node(71, "Intel(R) Wi-Fi 6", vec![0x00, 0x11, 0x22, 0x33, 0x44, 0x55], Some(1)),
            node(71, "VMware Virtual Wi-Fi", vec![0xAA, 0xBB, 0xCC, 0xDD, 0xEE, 0xFF], None),
        ],
    };
    let plan = plan_for_snapshot(&buffer);
    assert_eq!(plan.reports.len(), 2);
    assert_eq!(plan.reports[0].description, "Intel(R) Wi-Fi 6");
    assert_eq!(plan.reports[0].mac_text, "00-11-22-33-44-55");
    assert!(!plan.reports[0].is_virtual);
    assert_eq!(plan.reports[1].description, "VMware Virtual Wi-Fi");
    assert_eq!(plan.reports[1].mac_text, "AA-BB-CC-DD-EE-FF");
    assert!(plan.reports[1].is_virtual);
    assert_eq!(plan.copy_text.as_deref(), Some("00-11-22-33-44-55"));
}

#[test]
fn snapshot_without_wifi_adapters_copies_nothing() {
    let buffer = RawAdapterBuffer {
        head: Some(0),
        nodes: vec![
            node(6, "Realtek PCIe GbE Family Controller", vec![1, 2, 3, 4, 5, 6], Some(1)),
            node(24, "Software Loopback Interface 1", vec![], None),
        ],
    };
    let plan = plan_for_snapshot(&buffer);
    assert!(plan.reports.is_empty());
    assert!(plan.copy_text.is_none());
}

#[test]
fn empty_snapshot_copies_nothing() {
    let buffer = RawAdapterBuffer { head: None, nodes: vec![] };
    let plan = plan_for_snapshot(&buffer);
    assert!(plan.reports.is_empty());
    assert!(plan.copy_text.is_none());
}

use getmacaddress::parse::{parse_adapters, RawAdapterBuffer, RawAdapterNode};

fn wide(text: &str) -> Vec<u16> {
    let mut units: Vec<u16> = text.encode_utf16().collect();
    units.push(0);
    units
}

fn node(
    if_type: u32,
    description: Option<Vec<u16>>,
    mac: Vec<u8>,
    mac_len: u32,
    next: Option<usize>,
) -> RawAdapterNode {
    RawAdapterNode {
        if_type,
        description,
        physical_address: mac,
        physical_address_length: mac_len,
        next,
    }
}

#[test]
fn null_head_yields_empty_sequence() {
    let buffer = RawAdapterBuffer { head: None, nodes: vec![] };
    let records = parse_adapters(&buffer);
    assert!(records.is_empty());
}

#[test]
fn null_head_with_nodes_present_yields_empty_sequence() {
    let buffer = RawAdapterBuffer {
        head: None,
        nodes: vec![node(71, Some(wide("ghost")), vec![1, 2, 3], 3, None)],
    };
    assert!(parse_adapters(&buffer).is_empty());
}

#[test]
fn two_nodes_decode_in_traversal_order() {
    let buffer = RawAdapterBuffer {
        head: Some(0),
        nodes: vec![
            node(71, Some(wide("Intel(R) Wi-Fi 6")), vec![0, 17, 34, 51, 68, 85], 6, Some(1)),
            node(6, Some(wide("Realtek PCIe GbE")), vec![1, 2, 3, 4, 5, 6], 6, None),
        ],
    };
    let records = parse_adapters(&buffer);
    assert_eq!(records.len(), 2);
    assert_eq!(records[0].interface_type, 71);
    assert_eq!(records[0].description, "Intel(R) Wi-Fi 6");
    assert_eq!(records[0].physical_address, vec![0, 17, 34, 51, 68, 85]);
    assert_eq!(records[1].interface_type, 6);
    assert_eq!(records[1].description, "Realtek PCIe GbE");
}

#[test]
fn absent_description_degrades_to_sentinel() {
    let buffer = RawAdapterBuffer {
        head: Some(0),
        nodes: vec![node(71, None, vec![1, 2, 3, 4, 5, 6], 6, None)],
    };
    let records = parse_adapters(&buffer);
    assert_eq!(records[0].description, "(No Description)");
}

#[test]
fn description_stops_at_first_zero_unit() {
    let mut units = wide("visible");
    units.extend(wide("hidden"));
    let buffer = RawAdapterBuffer {
        head: Some(0),
        nodes: vec![node(71, Some(units), vec![], 0, None)],
    };
    let records = parse_adapters(&buffer);
    assert_eq!(records[0].description, "visible");
}

#[test]
fn description_without_terminator_is_taken_whole() {
    let units: Vec<u16> = "open".encode_utf16().collect();
    let buffer = RawAdapterBuffer {
        head: Some(0),
        nodes: vec![node(71, Some(units), vec![], 0, None)],
    };
    let records = parse_adapters(&buffer);
    assert_eq!(records[0].description, "open");
}

#[test]
fn invalid_utf16_degrades_lossily() {
    // A lone high surrogate is invalid UTF-16.
    let units: Vec<u16> = vec![0xD800, 'x' as u16, 0];
    let buffer = RawAdapterBuffer {
        head: Some(0),
        nodes: vec![node(71, Some(units), vec![], 0, None)],
    };
    let records = parse_adapters(&buffer);
    assert_eq!(records[0].description, "\u{FFFD}x");
}

#[test]
fn zero_length_address_yields_no_bytes() {
    let buffer = RawAdapterBuffer {
        head: Some(0),
        nodes: vec![node(71, Some(wide("no hardware address")), vec![9, 9, 9], 0, None)],
    };
    let records = parse_adapters(&buffer);
    assert!(records[0].physical_address.is_empty());
}

#[test]
fn declared_length_is_honored_not_assumed_six() {
    let raw = vec![1, 2, 3, 4, 5, 6, 7, 8, 0, 0, 0, 0, 0, 0, 0, 0];
    let buffer = RawAdapterBuffer {
        head: Some(0),
        nodes: vec![node(71, Some(wide("eui-64")), raw, 8, None)],
    };
    let records = parse_adapters(&buffer);
    assert_eq!(records[0].physical_address, vec![1, 2, 3, 4, 5, 6, 7, 8]);
}

#[test]
fn overlong_declared_length_is_cut_to_the_array() {
    let buffer = RawAdapterBuffer {
        head: Some(0),
        nodes: vec![node(71, Some(wide("corrupt length")), vec![1, 2], 200, None)],
    };
    let records = parse_adapters(&buffer);
    assert_eq!(records[0].physical_address, vec![1, 2]);
}

#[test]
fn dangling_link_ends_the_walk() {
    let buffer = RawAdapterBuffer {
        head: Some(0),
        nodes: vec![node(71, Some(wide("first")), vec![1], 1, Some(7))],
    };
    let records = parse_adapters(&buffer);
    assert_eq!(records.len(), 1);
    assert_eq!(records[0].description, "first");
}

#[test]
fn cyclic_links_terminate() {
    let buffer = RawAdapterBuffer {
        head: Some(0),
        nodes: vec![
            node(71, Some(wide("a")), vec![1], 1, Some(1)),
            node(71, Some(wide("b")), vec![2], 1, Some(0)),
        ],
    };
    let records = parse_adapters(&buffer);
    assert_eq!(records.len(), 2);
}

#[test]
fn records_are_copies_unaffected_by_the_buffer_afterwards() {
    let mut buffer = RawAdapterBuffer {
        head: Some(0),
        nodes: vec![node(71, Some(wide("Intel(R) Wi-Fi 6")), vec![0xAA, 0xBB], 2, None)],
    };
    let records = parse_adapters(&buffer);
    // Mutate, then discard, the source buffer.
    buffer.nodes[0].description = Some(wide("overwritten"));
    buffer.nodes[0].physical_address = vec![0, 0];
    buffer.nodes.clear();
    buffer.head = None;
    drop(buffer);
    assert_eq!(records[0].description, "Intel(R) Wi-Fi 6");
    assert_eq!(records[0].physical_address, vec![0xAA, 0xBB]);
}

use packet_sniffer::capture::{ether_type_name, process_packet, CaptureError};
use packet_sniffer::date_format::{deserialize, serialize};
use packet_sniffer::datetime::Timestamp;
use packet_sniffer::dbthread::{search_result_ids, show_search_results, take_pending, take_search_query};
use packet_sniffer::draw::{details_with_time, packet_details, packet_row, plan_frame, row_with_time, selected_row_exists};
use packet_sniffer::model::{KeyMode, Model, Packet, PacketHeader, PacketInfo, TableState};
use packet_sniffer::text::{to_ip4addr_string, to_ip6addr_string, to_macaddr_string};
use packet_sniffer::update::{update, Event, InputEvent, KeyCode};

fn key(code: KeyCode) -> Event<InputEvent, Packet> {
    Event::Input(InputEvent::Key(code))
}

fn packet(secs: i64, len: u32) -> Packet {
    Packet {
        header: PacketHeader { ts: Timestamp { secs, nanos: 0 }, caplen: len, len },
        mac_dst: Some("ff:ff:ff:ff:ff:ff".to_string()),
        mac_src: None,
        ip_type: Some("ARP".to_string()),
        payload: format!("payload {}", secs),
        ip_dst: None,
        ip_src: None,
    }
}

fn model_with_packets(n: i64) -> Model {
    let mut m = Model::new();
    for i in 0..n {
        update(&mut m, Event::Traffic(packet(i, i as u32)));
    }
    m
}

fn arp_frame() -> Vec<u8> {
    let mut f = vec![0xff, 0xff, 0xff, 0xff, 0xff, 0xff, 0x00, 0x1b, 0x21, 0x0a, 0xff, 0x10, 0x08, 0x06];
    f.extend_from_slice(b"hello");
    f
}

fn ipv4_udp_frame() -> Vec<u8> {
    vec![
        0x00, 0x11, 0x22, 0x33, 0x44, 0x55, 0x66, 0x77, 0x88, 0x99, 0xaa, 0xbb, 0x08, 0x00,
        0x45, 0x00, 0x00, 0x1e, 0x00, 0x00, 0x00, 0x00, 0x40, 0x11, 0x00, 0x00,
        192, 168, 0, 1, 10, 0, 0, 2,
        0x04, 0xd2, 0x16, 0x2e, 0x00, 0x0a, 0x00, 0x00, b'h', b'i',
    ]
}

#[test]
fn mac_address_text() {
    assert_eq!(to_macaddr_string([0x00, 0x1b, 0x21, 0x0a, 0xff, 0x10]), "0:1b:21:a:ff:10");
}

#[test]
fn ipv4_address_text() {
    assert_eq!(to_ip4addr_string([192, 168, 0, 1]), "192.168.0.1");
    assert_eq!(to_ip4addr_string([0, 0, 0, 255]), "0.0.0.255");
}

#[test]
fn ipv6_address_text_uses_first_eight_octets() {
    let addr = [0xfe, 0x80, 0, 0, 0, 0, 0, 0, 1, 2, 3, 4, 5, 6, 7, 8];
    assert_eq!(to_ip6addr_string(addr), "fe80:00:00:00");
    let addr = [0x20, 0x01, 0x0d, 0xb8, 0x12, 0x34, 0xab, 0xcd, 0, 0, 0, 0, 0, 0, 0, 1];
    assert_eq!(to_ip6addr_string(addr), "201:db8:1234:abcd");
}

#[test]
fn ether_type_names() {
    assert_eq!(ether_type_name(2048).as_deref(), Some("IPv4"));
    assert_eq!(ether_type_name(2054).as_deref(), Some("ARP"));
    assert_eq!(ether_type_name(34525).as_deref(), Some("IPv6"));
    assert_eq!(ether_type_name(0x0842), None);
}

#[test]
fn packet_info_splits_frame() {
    let info = PacketInfo::from(arp_frame());
    assert_eq!(info.eth_dst, vec![0xff; 6]);
    assert_eq!(info.eth_src, vec![0x00, 0x1b, 0x21, 0x0a, 0xff, 0x10]);
    assert_eq!(info.eth_type, vec![0x08, 0x06]);
    assert_eq!(info.data, b"hello".to_vec());
}

fn captured_at(secs: i64, usec: i64) -> Result<Option<Packet>, CaptureError> {
    process_packet(secs, usec, 19, 19, &arp_frame())
}

#[test]
fn capture_time_validity() {
    assert!(captured_at(1_600_000_000, 0).is_ok());
    assert!(captured_at(-1, 999_999_999).is_ok());
    assert!(captured_at(0, 2_000_000_000).is_err());
    assert!(captured_at(0, 1_000_000_000).is_err());
    assert!(captured_at(59, 1_500_000_000).is_ok());
    assert!(captured_at(i64::MAX, 0).is_err());
    assert!(captured_at(8_000_000_000_000, 999_999_999).is_ok());
    assert!(captured_at(-8_000_000_000_000, 0).is_ok());
}

fn at(secs: i64, nanos: u32) -> Packet {
    let mut p = packet(secs, 1);
    p.header.ts.nanos = nanos;
    p
}

#[test]
fn capture_time_texts() {
    assert_eq!(packet_row(&at(1_600_000_000, 0)).unwrap().time, "12:26:40");
    assert_eq!(packet_row(&at(-1, 0)).unwrap().time, "23:59:59");
    assert_eq!(packet_row(&at(59, 1_500_000_000)).unwrap().time, "00:00:60");
    assert_eq!(packet_details(&at(0, 0)).unwrap().items[0], "time: 1970-01-01 00:00:00");
    assert_eq!(packet_details(&at(1_600_000_000, 5)).unwrap().items[0], "time: 2020-09-13 12:26:40.000000005");
    assert_eq!(packet_details(&at(1_600_000_000, 5_000_000)).unwrap().items[0], "time: 2020-09-13 12:26:40.005");
    assert!(packet_details(&at(i64::MAX, 0)).is_none());
    assert!(packet_row(&at(i64::MAX, 0)).is_none());
}

#[test]
fn stored_time_round_trip() {
    let t = Timestamp { secs: 1_600_000_000, nanos: 0 };
    let text = serialize(&t).unwrap();
    assert_eq!(text, "2020-09-13 12:26:40");
    assert_eq!(deserialize(&text).unwrap(), t);
    // The fraction is not stored.
    let t = Timestamp { secs: 1_600_000_000, nanos: 123 };
    assert_eq!(deserialize(&serialize(&t).unwrap()).unwrap(), Timestamp { secs: 1_600_000_000, nanos: 0 });
}

#[test]
fn stored_time_refused() {
    assert!(deserialize("not a date").is_err());
    assert!(deserialize("2020-13-01 00:00:00").is_err());
    assert_eq!(serialize(&Timestamp { secs: 0, nanos: 3_000_000_000 }), None);
}

#[test]
fn arp_frame_becomes_packet() {
    let p = process_packet(1_600_000_000, 250, 19, 60, &arp_frame()).unwrap().unwrap();
    assert_eq!(p.header, PacketHeader { ts: Timestamp { secs: 1_600_000_000, nanos: 250 }, caplen: 19, len: 60 });
    assert_eq!(p.mac_dst.as_deref(), Some("ff:ff:ff:ff:ff:ff"));
    assert_eq!(p.mac_src.as_deref(), Some("0:1b:21:a:ff:10"));
    assert_eq!(p.ip_type.as_deref(), Some("ARP"));
    assert_eq!(p.ip_dst, None);
    assert_eq!(p.ip_src, None);
    assert_eq!(p.payload, "hello");
}

#[test]
fn payload_is_escaped() {
    let mut frame = arp_frame();
    frame.truncate(14);
    frame.extend_from_slice(b"a\\b\n\xff");
    let p = process_packet(0, 0, 19, 19, &frame).unwrap().unwrap();
    assert_eq!(p.payload, r"a\\b\n\xFF");
}

#[test]
fn ipv4_frame_becomes_packet() {
    let p = process_packet(1, 0, 44, 44, &ipv4_udp_frame()).unwrap().unwrap();
    assert_eq!(p.mac_dst.as_deref(), Some("0:11:22:33:44:55"));
    assert_eq!(p.mac_src.as_deref(), Some("66:77:88:99:aa:bb"));
    assert_eq!(p.ip_type.as_deref(), Some("IPv4"));
    assert_eq!(p.ip_src.as_deref(), Some("192.168.0.1"));
    assert_eq!(p.ip_dst.as_deref(), Some("10.0.0.2"));
    assert_eq!(p.payload, "hi");
}

#[test]
fn short_frame_gives_no_packet() {
    assert!(process_packet(0, 0, 5, 5, &[1, 2, 3, 4, 5]).unwrap().is_none());
}

#[test]
fn invalid_capture_time_is_an_error() {
    assert_eq!(process_packet(0, 2_000_000_000, 19, 19, &arp_frame()).unwrap_err(), CaptureError::InvalidTimestamp);
    // The microseconds are truncated to 32 bits: 2^32 + 7 becomes 7.
    let p = process_packet(0, (1i64 << 32) + 7, 19, 19, &arp_frame()).unwrap().unwrap();
    assert_eq!(p.header.ts.nanos, 7);
}

#[test]
fn no_packets_nothing_to_draw() {
    let m = Model::new();
    assert!(m.get_packets_to_draw().is_none());
}

#[test]
fn recent_packets_window() {
    let m = model_with_packets(5);
    let shown = m.get_packets_to_draw().unwrap();
    assert_eq!(shown.iter().map(|p| p.header.len).collect::<Vec<_>>(), vec![0, 1, 2, 3, 4]);
    let m = model_with_packets(25);
    let shown = m.get_packets_to_draw().unwrap();
    assert_eq!(shown.len(), 20);
    assert_eq!(shown[0].header.len, 5);
    assert_eq!(shown[19].header.len, 24);
}

#[test]
fn search_results_are_drawn() {
    let mut m = model_with_packets(3);
    m.search_is_active = true;
    assert_eq!(m.get_packets_to_draw().unwrap().len(), 0);
    show_search_results(&mut m, vec![packet(99, 99)]);
    let shown = m.get_packets_to_draw().unwrap();
    assert_eq!(shown.len(), 1);
    assert_eq!(shown[0].header.len, 99);
}

#[test]
fn gauge_ratio_truncates() {
    let mut m = Model::new();
    m.gauge_ratio = 70_000;
    assert_eq!(m.get_gauge_ratio(), 4464);
    m.gauge_ratio = 42;
    assert_eq!(m.get_gauge_ratio(), 42);
}

#[test]
fn typing_and_backspace() {
    let mut m = Model::new();
    update(&mut m, key(KeyCode::Char('i')));
    assert_eq!(m.key_mode, KeyMode::Insert);
    update(&mut m, key(KeyCode::Char('t')));
    update(&mut m, key(KeyCode::Char('c')));
    update(&mut m, key(KeyCode::Char('q')));
    assert_eq!(m.input, "tcq");
    assert!(!m.should_quit);
    update(&mut m, key(KeyCode::Backspace));
    assert_eq!(m.input, "tc");
    update(&mut m, key(KeyCode::Backspace));
    update(&mut m, key(KeyCode::Backspace));
    update(&mut m, key(KeyCode::Backspace));
    assert_eq!(m.input, "");
    assert_eq!(m.key_mode, KeyMode::Insert);
}

#[test]
fn quit_in_normal_mode() {
    let mut m = Model::new();
    update(&mut m, key(KeyCode::Char('q')));
    assert!(m.should_quit);
}

#[test]
fn escape_and_reenter_insert_mode() {
    let mut m = model_with_packets(3);
    update(&mut m, key(KeyCode::Char('j')));
    assert_eq!(m.packet_table_state.selected(), Some(0));
    update(&mut m, key(KeyCode::Char('i')));
    assert_eq!(m.packet_table_state.selected(), None);
    update(&mut m, key(KeyCode::Char('x')));
    update(&mut m, key(KeyCode::Esc));
    assert_eq!(m.key_mode, KeyMode::Normal);
    assert_eq!(m.input, "x");
    update(&mut m, key(KeyCode::Char('i')));
    assert_eq!(m.key_mode, KeyMode::Insert);
    assert_eq!(m.input, "x");
}

#[test]
fn selection_moves_and_wraps() {
    let mut m = model_with_packets(3);
    update(&mut m, key(KeyCode::Char('j')));
    assert_eq!(m.packet_table_state.selected(), Some(0));
    update(&mut m, key(KeyCode::Char('j')));
    update(&mut m, key(KeyCode::Char('j')));
    assert_eq!(m.packet_table_state.selected(), Some(2));
    update(&mut m, key(KeyCode::Char('j')));
    assert_eq!(m.packet_table_state.selected(), Some(0));
    update(&mut m, key(KeyCode::Char('k')));
    assert_eq!(m.packet_table_state.selected(), Some(2));
    update(&mut m, key(KeyCode::Char('k')));
    assert_eq!(m.packet_table_state.selected(), Some(1));
    update(&mut m, key(KeyCode::Char('j')));
    update(&mut m, key(KeyCode::Char('k')));
    assert_eq!(m.packet_table_state.selected(), Some(1));
}

#[test]
fn selection_on_empty_table() {
    let mut m = Model::new();
    update(&mut m, key(KeyCode::Char('j')));
    assert_eq!(m.packet_table_state.selected(), None);
    update(&mut m, key(KeyCode::Char('k')));
    assert_eq!(m.packet_table_state.selected(), None);
}

#[test]
fn previous_from_nothing_selects_first() {
    let mut m = model_with_packets(4);
    update(&mut m, key(KeyCode::Char('k')));
    assert_eq!(m.packet_table_state.selected(), Some(0));
}

#[test]
fn stale_selection_is_brought_back() {
    let mut m = model_with_packets(4);
    m.packet_table_state = TableState { selected: Some(9) };
    update(&mut m, key(KeyCode::Char('k')));
    assert_eq!(m.packet_table_state.selected(), Some(3));
    m.packet_table_state = TableState { selected: Some(9) };
    update(&mut m, key(KeyCode::Char('j')));
    assert_eq!(m.packet_table_state.selected(), Some(0));
}

#[test]
fn other_events_change_nothing() {
    let mut m = model_with_packets(2);
    update(&mut m, Event::Tick);
    update(&mut m, Event::Input(InputEvent::Mouse));
    update(&mut m, Event::Input(InputEvent::Resize(80, 24)));
    update(&mut m, key(KeyCode::Other));
    update(&mut m, key(KeyCode::Char('z')));
    assert_eq!(m.packets.len(), 2);
    assert_eq!(m.input, "");
    assert_eq!(m.key_mode, KeyMode::Normal);
    assert!(!m.should_quit);
    assert_eq!(m.packet_table_state.selected(), None);
}

#[test]
fn search_lifecycle() {
    let mut m = model_with_packets(2);
    update(&mut m, key(KeyCode::Char('i')));
    update(&mut m, key(KeyCode::Enter));
    assert!(!m.search_is_active);
    assert_eq!(m.key_mode, KeyMode::Insert);
    for c in "arp".chars() {
        update(&mut m, key(KeyCode::Char(c)));
    }
    update(&mut m, key(KeyCode::Enter));
    assert!(m.search_is_active);
    assert_eq!(m.key_mode, KeyMode::Normal);
    assert_eq!(take_search_query(&mut m).as_deref(), Some("arp"));
    assert_eq!(m.input, "");
    assert_eq!(take_search_query(&mut m), None);
    show_search_results(&mut m, vec![packet(7, 70)]);
    assert_eq!(m.get_packets_to_draw().unwrap()[0].header.len, 70);
    update(&mut m, key(KeyCode::Char('c')));
    assert!(!m.search_is_active);
    assert_eq!(m.get_packets_to_draw().unwrap().len(), 2);
}

#[test]
fn pending_packets_are_taken_once() {
    let mut pending = vec![packet(1, 1), packet(2, 2)];
    let batch = take_pending(&mut pending).unwrap();
    assert_eq!(batch.len(), 2);
    assert_eq!(batch[1].header.len, 2);
    assert!(pending.is_empty());
    assert!(take_pending(&mut pending).is_none());
}

#[test]
fn table_rows_and_details() {
    let p = packet(1_600_000_000, 60);
    let row = packet_row(&p).unwrap();
    assert_eq!(row.time, "12:26:40");
    assert_eq!(row.len, "60");
    let d = packet_details(&p).unwrap();
    assert_eq!(
        d.items,
        vec![
            "time: 2020-09-13 12:26:40",
            "len: 60",
            "caplen: 60",
            "mac_dst: ff:ff:ff:ff:ff:ff",
            "mac_src: ",
            "ip_type: ARP",
            "ip_dst: ",
            "ip_src: ",
        ]
    );
    assert_eq!(d.payload, "payload 1600000000");
}

#[test]
fn frame_plan() {
    let m = Model::new();
    let f = plan_frame(&m).unwrap();
    assert!(f.rows.is_none() && f.details.is_none());

    let mut m = model_with_packets(3);
    update(&mut m, key(KeyCode::Char('j')));
    update(&mut m, key(KeyCode::Char('j')));
    let f = plan_frame(&m).unwrap();
    let rows = f.rows.unwrap();
    assert_eq!(rows.len(), 3);
    assert_eq!(rows[2].time, "00:00:02");
    assert_eq!(rows[2].len, "2");
    assert_eq!(f.details.unwrap().items[1], "len: 1");
    assert_eq!(f.input, "");
}

#[test]
fn frame_plan_with_unwritable_time() {
    let mut m = Model::new();
    let mut p = packet(0, 1);
    p.header.ts.nanos = 2_500_000_000;
    update(&mut m, Event::Traffic(p));
    assert!(plan_frame(&m).is_none());
}

#[test]
fn rows_and_details_from_written_time() {
    let mut p = packet(3, 1500);
    p.header.caplen = 96;
    p.ip_src = Some("10.0.0.2".to_string());
    let row = row_with_time(&p, "01:02:03".to_string());
    assert_eq!(row.time, "01:02:03");
    assert_eq!(row.len, "1500");
    let d = details_with_time(&p, "then".to_string());
    assert_eq!(d.items[0], "time: then");
    assert_eq!(d.items[1], "len: 1500");
    assert_eq!(d.items[2], "caplen: 96");
    assert_eq!(d.items[7], "ip_src: 10.0.0.2");
    assert_eq!(d.payload, "payload 3");
}

#[test]
fn selection_past_the_table() {
    let mut m = model_with_packets(2);
    assert!(selected_row_exists(&m));
    m.packet_table_state.select(Some(1));
    assert!(selected_row_exists(&m));
    m.packet_table_state.select(Some(2));
    assert!(!selected_row_exists(&m));
    m.search_is_active = true;
    m.packet_table_state.select(Some(0));
    assert!(!selected_row_exists(&m));
    let m2 = Model::new();
    assert!(selected_row_exists(&m2));
}

#[test]
fn mac_text_splits_and_reads_back() {
    for addr in [[0u8, 0x1b, 0x21, 0x0a, 0xff, 0x10], [0; 6], [0xff; 6], [1, 2, 3, 4, 5, 6]] {
        let text = to_macaddr_string(addr);
        let fields: Vec<&str> = text.split(':').collect();
        assert_eq!(fields.len(), 6);
        for i in 0..6 {
            assert!(1 <= fields[i].len() && fields[i].len() <= 2);
            assert_eq!(u8::from_str_radix(fields[i], 16), Ok(addr[i]));
        }
        assert!(11 <= text.len() && text.len() <= 17);
    }
    assert_ne!(to_macaddr_string([1, 0x12, 3, 4, 5, 6]), to_macaddr_string([0x11, 2, 3, 4, 5, 6]));
}

#[test]
fn ipv4_text_splits_and_reads_back() {
    for addr in [[192u8, 168, 0, 1], [0; 4], [255; 4], [10, 200, 3, 45]] {
        let text = to_ip4addr_string(addr);
        let fields: Vec<&str> = text.split('.').collect();
        assert_eq!(fields.len(), 4);
        for i in 0..4 {
            assert!(1 <= fields[i].len() && fields[i].len() <= 3);
            assert_eq!(fields[i].parse::<u8>(), Ok(addr[i]));
        }
        assert!(7 <= text.len() && text.len() <= 15);
    }
    assert_ne!(to_ip4addr_string([1, 11, 1, 1]), to_ip4addr_string([11, 1, 1, 1]));
}

#[test]
fn capture_time_range_bounds() {
    assert!(captured_at(-8_334_601_228_800, 0).is_ok());
    assert!(captured_at(-8_334_601_228_801, 0).is_err());
    assert!(captured_at(8_210_266_876_799, 0).is_ok());
    assert!(captured_at(8_210_266_876_800, 0).is_err());
}

#[test]
fn stored_time_written_for_valid_times() {
    assert_eq!(serialize(&Timestamp { secs: 0, nanos: 0 }).as_deref(), Some("1970-01-01 00:00:00"));
    assert_eq!(serialize(&Timestamp { secs: 59, nanos: 1_000_000_000 }).as_deref(), Some("1970-01-01 00:00:60"));
    assert!(serialize(&Timestamp { secs: -8_334_601_228_800, nanos: 0 }).is_some());
    assert_eq!(serialize(&Timestamp { secs: 58, nanos: 1_000_000_000 }), None);
}

#[test]
fn search_result_ids_count_up() {
    assert_eq!(search_result_ids(0), Vec::<u64>::new());
    assert_eq!(search_result_ids(4), vec![0, 1, 2, 3]);
}

#[test]
fn stored_time_four_digit_year_bounds() {
    let first = Timestamp { secs: -62_167_219_200, nanos: 0 };
    assert_eq!(serialize(&first).as_deref(), Some("0000-01-01 00:00:00"));
    assert_eq!(deserialize("0000-01-01 00:00:00").unwrap(), first);
    let last = Timestamp { secs: 253_402_300_799, nanos: 999_999_999 };
    assert_eq!(serialize(&last).as_deref(), Some("9999-12-31 23:59:59"));
    assert_eq!(deserialize("9999-12-31 23:59:59").unwrap(), Timestamp { secs: 253_402_300_799, nanos: 0 });
    // Just outside the four-digit years the year takes a sign or a fifth digit.
    assert_eq!(serialize(&Timestamp { secs: -62_167_219_201, nanos: 0 }).as_deref(), Some("-0001-12-31 23:59:59"));
    assert_eq!(serialize(&Timestamp { secs: 253_402_300_800, nanos: 0 }).as_deref(), Some("+10000-01-01 00:00:00"));
}

#[test]
fn stored_leap_second_reads_back_as_leap_second() {
    let leap = Timestamp { secs: 59, nanos: 1_500_000_000 };
    let text = serialize(&leap).unwrap();
    assert_eq!(text, "1970-01-01 00:00:60");
    assert_eq!(deserialize(&text).unwrap(), Timestamp { secs: 59, nanos: 1_000_000_000 });
    let plain = Timestamp { secs: 59, nanos: 999_999_999 };
    assert_eq!(deserialize(&serialize(&plain).unwrap()).unwrap(), Timestamp { secs: 59, nanos: 0 });
}

//! What a frame of the interface shows: the packet table's rows, the
//! selected packet's details and payload, and the search input.

use crate::datetime::{
    chrono_display, chrono_format, chrono_timestamp_valid, clock_text, display_timestamp,
    format_timestamp,
};
use crate::model::{displayed_packets, Model, ModelView, Packet, PacketView};
use crate::text::{decimal, push_decimal};
use vstd::prelude::*;

verus! {

/// The strftime pattern of the table's time column.
pub open spec fn clock_pattern() -> Seq<char> {
    "%H:%M:%S"@
}

/// One row of the packet table: capture time of day and length.
pub struct PacketRow {
    pub time: String,
    pub len: String,
}

/// The texts of a packet's row, where its time can be written.
pub open spec fn row_text(p: Packet) -> Option<(Seq<char>, Seq<char>)> {
    match chrono_format(p.header.ts.secs, p.header.ts.nanos, clock_pattern()) {
        Some(time) => Some((time, decimal(p.header.len as nat))),
        None => None,
    }
}

/// The table row of a packet whose time of day is written as `time`.
pub fn row_with_time(p: &Packet, time: String) -> (r: PacketRow)
    ensures
        r.time@ == time@,
        r.len@ == decimal(p.header.len as nat),
{
    let mut len = String::new();
    push_decimal(&mut len, p.header.len as u64);
    PacketRow { time, len }
}

/// The table row for a packet; `None` where its time cannot be written.
pub fn packet_row(p: &Packet) -> (r: Option<PacketRow>)
    ensures
        match r {
            Some(row) => row_text(*p) == Some((row.time@, row.len@)),
            None => row_text(*p) is None,
        },
        r is Some <==> chrono_timestamp_valid(p.header.ts.secs, p.header.ts.nanos),
        r matches Some(row) ==> row.time@ == clock_text(p.header.ts.secs, p.header.ts.nanos),
{
    match format_timestamp(p.header.ts.secs, p.header.ts.nanos, "%H:%M:%S") {
        Some(time) => Some(row_with_time(p, time)),
        None => None,
    }
}

/// An optional text, or the empty text.
pub open spec fn or_empty(o: Option<Seq<char>>) -> Seq<char> {
    match o {
        Some(s) => s,
        None => Seq::empty(),
    }
}

/// The detail lines of a packet whose capture time is written as `time`.
pub open spec fn detail_lines(p: PacketView, time: Seq<char>) -> Seq<Seq<char>> {
    seq![
        "time: "@ + time,
        "len: "@ + decimal(p.header.len as nat),
        "caplen: "@ + decimal(p.header.caplen as nat),
        "mac_dst: "@ + or_empty(p.mac_dst),
        "mac_src: "@ + or_empty(p.mac_src),
        "ip_type: "@ + or_empty(p.ip_type),
        "ip_dst: "@ + or_empty(p.ip_dst),
        "ip_src: "@ + or_empty(p.ip_src),
    ]
}

/// The selected packet's detail lines and payload text.
pub struct PacketDetails {
    pub items: Vec<String>,
    pub payload: String,
}

/// The texts of a list of strings.
pub open spec fn texts(v: Seq<String>) -> Seq<Seq<char>> {
    v.map_values(|s: String| s@)
}

fn labelled(label: &str, value: &Option<String>) -> (r: String)
    ensures
        r@ == label@ + or_empty(crate::model::text_view(*value)),
{
    let mut line = label.to_string();
    match value {
        Some(v) => line.append(v.as_str()),
        None => {},
    }
    assert(line@ =~= label@ + or_empty(crate::model::text_view(*value)));
    line
}

fn labelled_number(label: &str, n: u32) -> (r: String)
    ensures
        r@ == label@ + decimal(n as nat),
{
    let mut line = label.to_string();
    push_decimal(&mut line, n as u64);
    line
}

/// The details of a packet whose capture time is written as `time`.
pub fn details_with_time(p: &Packet, time: String) -> (r: PacketDetails)
    ensures
        texts(r.items@) == detail_lines(p@, time@),
        r.payload@ == p.payload@,
        r.items@.len() == 8,
        r.items@[0]@ == "time: "@ + time@,
        r.items@[1]@ == "len: "@ + decimal(p.header.len as nat),
        r.items@[2]@ == "caplen: "@ + decimal(p.header.caplen as nat),
        r.items@[3]@ == "mac_dst: "@ + or_empty(p@.mac_dst),
        r.items@[4]@ == "mac_src: "@ + or_empty(p@.mac_src),
        r.items@[5]@ == "ip_type: "@ + or_empty(p@.ip_type),
        r.items@[6]@ == "ip_dst: "@ + or_empty(p@.ip_dst),
        r.items@[7]@ == "ip_src: "@ + or_empty(p@.ip_src),
{
    let mut time_line = "time: ".to_string();
    time_line.append(time.as_str());
    let mut items: Vec<String> = Vec::new();
    items.push(time_line);
    items.push(labelled_number("len: ", p.header.len));
    items.push(labelled_number("caplen: ", p.header.caplen));
    items.push(labelled("mac_dst: ", &p.mac_dst));
    items.push(labelled("mac_src: ", &p.mac_src));
    items.push(labelled("ip_type: ", &p.ip_type));
    items.push(labelled("ip_dst: ", &p.ip_dst));
    items.push(labelled("ip_src: ", &p.ip_src));
    assert(texts(items@) =~= detail_lines(p@, time@));
    PacketDetails { items, payload: p.payload.clone() }
}

/// The details of a packet; `None` where `chrono` rejects its capture time.
pub fn packet_details(p: &Packet) -> (r: Option<PacketDetails>)
    ensures
        r is Some <==> chrono_timestamp_valid(p.header.ts.secs, p.header.ts.nanos),
        r matches Some(d) ==> texts(d.items@) == detail_lines(
            p@,
            chrono_display(p.header.ts.secs, p.header.ts.nanos),
        ) && d.payload@ == p.payload@,
{
    match display_timestamp(p.header.ts.secs, p.header.ts.nanos) {
        Some(time) => Some(details_with_time(p, time)),
        None => None,
    }
}

/// What a frame shows: the table's rows (none before the first packet), the
/// selected packet's details, and the search input.
pub struct FramePlan {
    pub rows: Option<Vec<PacketRow>>,
    pub details: Option<PacketDetails>,
    pub input: String,
}

/// The selected row, if any, is a row of the table.
pub open spec fn selection_in_range(m: ModelView) -> bool {
    match displayed_packets(m) {
        Some(rows) => m.selected matches Some(i) ==> i < rows.len(),
        None => true,
    }
}

/// Whether the selected row, if any, is a row of the table (drawing a frame
/// with a selection past the table's end is not defined).
pub fn selected_row_exists(model: &Model) -> (r: bool)
    ensures
        r == selection_in_range(model@),
{
    match model.packet_table_state.selected() {
        Some(i) => {
            if model.search_is_active || model.packets.len() > 0 {
                i < model.displayed_count()
            } else {
                true
            }
        },
        None => true,
    }
}

/// Every text of the frame can be written: each row's time, and the selected
/// packet's capture time.
pub open spec fn frame_writable(m: ModelView) -> bool {
    match displayed_packets(m) {
        Some(rows) => {
            &&& forall|i: int| 0 <= i < rows.len() ==> (#[trigger] row_text(rows[i])) is Some
            &&& m.selected matches Some(k) ==> chrono_timestamp_valid(
                rows[k as int].header.ts.secs,
                rows[k as int].header.ts.nanos,
            )
        },
        None => true,
    }
}

/// The rows of a frame are the rows of the shown packets, in order.
pub open spec fn rows_show(rows: Seq<PacketRow>, packets: Seq<Packet>) -> bool {
    &&& rows.len() == packets.len()
    &&& forall|i: int|
        0 <= i < rows.len() ==> row_text(#[trigger] packets[i]) == Some((rows[i].time@, rows[i].len@))
}

/// Computes what a frame shows. `None` where some text of the frame cannot
/// be written.
pub fn plan_frame(model: &Model) -> (r: Option<FramePlan>)
    requires
        selection_in_range(model@),
    ensures
        r is Some <==> frame_writable(model@),
        r matches Some(f) ==> f.input@ == model@.input,
        r matches Some(f) ==> match displayed_packets(model@) {
            Some(shown) => {
                &&& f.rows matches Some(rows) && rows_show(rows@, shown)
                &&& (f.details is Some <==> model@.selected is Some)
                &&& f.details matches Some(d) ==> model@.selected matches Some(k) && texts(d.items@)
                    == detail_lines(
                    shown[k as int]@,
                    chrono_display(shown[k as int].header.ts.secs, shown[k as int].header.ts.nanos),
                ) && d.payload@ == shown[k as int].payload@
            },
            None => f.rows is None && f.details is None,
        },
{
    let input = model.input.clone();
    match model.get_packets_to_draw() {
        None => Some(FramePlan { rows: None, details: None, input }),
        Some(shown) => {
            let mut rows: Vec<PacketRow> = Vec::new();
            for i in 0..shown.len()
                invariant
                    displayed_packets(model@) == Some(shown@),
                    rows_show(rows@, shown@.subrange(0, i as int)),
                    forall|j: int| 0 <= j < i ==> (#[trigger] row_text(shown@[j])) is Some,
            {
                match packet_row(&shown[i]) {
                    Some(row) => {
                        rows.push(row);
                        assert(shown@.subrange(0, i + 1)[i as int] == shown@[i as int]);
                        assert forall|j: int| 0 <= j < i + 1 implies row_text(
                            #[trigger] shown@.subrange(0, i + 1)[j],
                        ) == Some((rows@[j].time@, rows@[j].len@)) by {
                            if j < i {
                                assert(shown@.subrange(0, i + 1)[j] == shown@.subrange(0, i as int)[j]);
                            }
                        }
                    },
                    None => {
                        assert(row_text(shown@[i as int]) is None);
                        return None;
                    },
                }
            }
            assert(shown@.subrange(0, shown@.len() as int) =~= shown@);
            let details = match model.packet_table_state.selected() {
                Some(k) => match packet_details(&shown[k]) {
                    Some(d) => Some(d),
                    None => {
                        return None;
                    },
                },
                None => None,
            };
            Some(FramePlan { rows: Some(rows), details, input })
        },
    }
}

/// Each detail line is its label followed by the packet's field of the same
/// name (empty where the packet has none), in the order time, len, caplen,
/// mac_dst, mac_src, ip_type, ip_dst, ip_src.
pub proof fn law_detail_lines_show_each_field(p: PacketView, time: Seq<char>)
    ensures
        detail_lines(p, time).len() == 8,
        detail_lines(p, time)[0] == "time: "@ + time,
        detail_lines(p, time)[1] == "len: "@ + decimal(p.header.len as nat),
        detail_lines(p, time)[2] == "caplen: "@ + decimal(p.header.caplen as nat),
        detail_lines(p, time)[3] == "mac_dst: "@ + or_empty(p.mac_dst),
        detail_lines(p, time)[4] == "mac_src: "@ + or_empty(p.mac_src),
        detail_lines(p, time)[5] == "ip_type: "@ + or_empty(p.ip_type),
        detail_lines(p, time)[6] == "ip_dst: "@ + or_empty(p.ip_dst),
        detail_lines(p, time)[7] == "ip_src: "@ + or_empty(p.ip_src),
{
}

} // verus!

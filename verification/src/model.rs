//! The application model: captured packets, the search input and the
//! packet table's selection.

use crate::datetime::Timestamp;
use vstd::prelude::*;

verus! {

/// How many of the most recent packets the table shows outside a search.
pub const RECENT_PACKETS: usize = 20;

/// The capture header of a packet.
#[derive(Clone, Copy, Debug, PartialEq, Eq, Structural)]
pub struct PacketHeader {
    pub ts: Timestamp,
    pub caplen: u32,
    pub len: u32,
}

/// A captured packet with its decoded addresses and its payload as text.
#[derive(Clone, Debug)]
pub struct Packet {
    pub header: PacketHeader,
    pub mac_dst: Option<String>,
    pub mac_src: Option<String>,
    pub ip_type: Option<String>,
    pub payload: String,
    pub ip_dst: Option<String>,
    pub ip_src: Option<String>,
}

/// The text of an optional string.
pub open spec fn text_view(o: Option<String>) -> Option<Seq<char>> {
    match o {
        Some(s) => Some(s@),
        None => None,
    }
}

/// A packet with its strings taken as texts.
pub struct PacketView {
    pub header: PacketHeader,
    pub mac_dst: Option<Seq<char>>,
    pub mac_src: Option<Seq<char>>,
    pub ip_type: Option<Seq<char>>,
    pub payload: Seq<char>,
    pub ip_dst: Option<Seq<char>>,
    pub ip_src: Option<Seq<char>>,
}

impl View for Packet {
    type V = PacketView;

    open spec fn view(&self) -> PacketView {
        PacketView {
            header: self.header,
            mac_dst: text_view(self.mac_dst),
            mac_src: text_view(self.mac_src),
            ip_type: text_view(self.ip_type),
            payload: self.payload@,
            ip_dst: text_view(self.ip_dst),
            ip_src: text_view(self.ip_src),
        }
    }
}

fn duplicate_text(o: &Option<String>) -> (r: Option<String>)
    ensures
        r == *o,
{
    match o {
        Some(s) => Some(s.clone()),
        None => None,
    }
}

impl Packet {
    /// An exact copy of this packet.
    pub fn duplicate(&self) -> (r: Packet)
        ensures
            r == *self,
    {
        Packet {
            header: self.header,
            mac_dst: duplicate_text(&self.mac_dst),
            mac_src: duplicate_text(&self.mac_src),
            ip_type: duplicate_text(&self.ip_type),
            payload: self.payload.clone(),
            ip_dst: duplicate_text(&self.ip_dst),
            ip_src: duplicate_text(&self.ip_src),
        }
    }
}

/// Copies every packet of `packets` in order.
pub fn duplicate_packets(packets: &Vec<Packet>) -> (r: Vec<Packet>)
    ensures
        r@ == packets@,
{
    let mut r: Vec<Packet> = Vec::new();
    for i in 0..packets.len()
        invariant
            r@ == packets@.subrange(0, i as int),
    {
        r.push(packets[i].duplicate());
        assert(r@ =~= packets@.subrange(0, i + 1));
    }
    assert(r@ =~= packets@);
    r
}

/// The raw fields of an Ethernet II frame.
#[derive(Clone, Debug)]
pub struct PacketInfo {
    pub eth_dst: Vec<u8>,
    pub eth_src: Vec<u8>,
    pub eth_type: Vec<u8>,
    pub data: Vec<u8>,
}

impl PacketInfo {
    /// Splits a frame into destination (6 bytes), source (6 bytes), type
    /// (2 bytes) and the rest.
    pub fn from(newdata: Vec<u8>) -> (r: PacketInfo)
        requires
            newdata@.len() >= 14,
        ensures
            r.eth_dst@ == newdata@.subrange(0, 6),
            r.eth_src@ == newdata@.subrange(6, 12),
            r.eth_type@ == newdata@.subrange(12, 14),
            r.data@ == newdata@.subrange(14, newdata@.len() as int),
            r.eth_dst@ + r.eth_src@ + r.eth_type@ + r.data@ == newdata@,
    {
        let mut head = newdata;
        let data = head.split_off(14);
        let eth_type = head.split_off(12);
        let eth_src = head.split_off(6);
        let r = PacketInfo { eth_dst: head, eth_src, eth_type, data };
        assert(r.eth_dst@ + r.eth_src@ + r.eth_type@ + r.data@ =~= newdata@);
        r
    }
}

/// Whether keys edit the search input or drive the table.
#[derive(Clone, Copy, Debug, PartialEq, Eq, Structural)]
pub enum KeyMode {
    Insert,
    Normal,
}

/// The packet table's selected row.
#[derive(Clone, Copy, Debug, PartialEq, Eq, Structural)]
pub struct TableState {
    pub selected: Option<usize>,
}

impl TableState {
    /// A table with no row selected.
    pub fn new() -> (r: TableState)
        ensures
            r.selected is None,
    {
        TableState { selected: None }
    }

    /// The selected row.
    pub fn selected(&self) -> (r: Option<usize>)
        ensures
            r == self.selected,
    {
        self.selected
    }

    /// Selects `index` (or nothing).
    pub fn select(&mut self, index: Option<usize>)
        ensures
            final(self).selected == index,
    {
        self.selected = index;
    }
}

/// The state of the application.
pub struct Model {
    pub input: String,
    pub current_window: i8,
    pub should_quit: bool,
    pub packets: Vec<Packet>,
    pub packets_to_draw: Vec<Packet>,
    pub search_is_active: bool,
    pub key_mode: KeyMode,
    pub packet_table_state: TableState,
    pub gauge_ratio: usize,
}

/// The model with its strings and vectors taken as sequences.
pub struct ModelView {
    pub input: Seq<char>,
    pub current_window: i8,
    pub should_quit: bool,
    pub packets: Seq<Packet>,
    pub packets_to_draw: Seq<Packet>,
    pub search_is_active: bool,
    pub key_mode: KeyMode,
    pub selected: Option<usize>,
    pub gauge_ratio: usize,
}

impl View for Model {
    type V = ModelView;

    open spec fn view(&self) -> ModelView {
        ModelView {
            input: self.input@,
            current_window: self.current_window,
            should_quit: self.should_quit,
            packets: self.packets@,
            packets_to_draw: self.packets_to_draw@,
            search_is_active: self.search_is_active,
            key_mode: self.key_mode,
            selected: self.packet_table_state.selected,
            gauge_ratio: self.gauge_ratio,
        }
    }
}

/// The packets that the table shows: the search results while a search is
/// active, otherwise the most recent `RECENT_PACKETS` captured packets
/// (nothing at all before the first packet).
pub open spec fn displayed_packets(m: ModelView) -> Option<Seq<Packet>> {
    if m.search_is_active {
        Some(m.packets_to_draw)
    } else if m.packets.len() == 0 {
        None
    } else if m.packets.len() <= RECENT_PACKETS {
        Some(m.packets)
    } else {
        Some(m.packets.subrange(m.packets.len() - RECENT_PACKETS, m.packets.len() as int))
    }
}

/// How many rows the table shows.
pub open spec fn displayed_count(m: ModelView) -> nat {
    match displayed_packets(m) {
        Some(rows) => rows.len(),
        None => 0,
    }
}

/// The selection after moving down one row among `n` rows, wrapping to the top.
pub open spec fn next_selection(selected: Option<usize>, n: nat) -> Option<usize> {
    if n == 0 {
        None
    } else {
        match selected {
            Some(i) => if i + 1 >= n { Some(0) } else { Some((i + 1) as usize) },
            None => Some(0),
        }
    }
}

/// The selection after moving up one row among `n` rows, wrapping to the bottom.
pub open spec fn previous_selection(selected: Option<usize>, n: nat) -> Option<usize> {
    if n == 0 {
        None
    } else {
        match selected {
            Some(i) => if i == 0 || i > n { Some((n - 1) as usize) } else { Some((i - 1) as usize) },
            None => Some(0),
        }
    }
}

impl Model {
    /// The model at start-up: no packets, no input, normal mode.
    pub fn new() -> (r: Model)
        ensures
            r@.input.len() == 0,
            r@.current_window == 0,
            !r@.should_quit,
            r@.packets.len() == 0,
            r@.packets_to_draw.len() == 0,
            !r@.search_is_active,
            r@.key_mode == KeyMode::Normal,
            r@.selected is None,
            r@.gauge_ratio == 0,
    {
        Model {
            input: String::new(),
            current_window: 0,
            should_quit: false,
            packets: Vec::new(),
            packets_to_draw: Vec::new(),
            search_is_active: false,
            key_mode: KeyMode::Normal,
            packet_table_state: TableState::new(),
            gauge_ratio: 0,
        }
    }

    /// The packets for the table: a copy of the search results while a
    /// search is active; otherwise `None` before the first packet, and the
    /// last `RECENT_PACKETS` packets (all of them when there are fewer).
    pub fn get_packets_to_draw(&self) -> (r: Option<Vec<Packet>>)
        ensures
            match displayed_packets(self@) {
                Some(rows) => r matches Some(v) && v@ == rows,
                None => r is None,
            },
    {
        if self.search_is_active {
            Some(duplicate_packets(&self.packets_to_draw))
        } else {
            let length = self.packets.len();
            if length == 0 {
                None
            } else if length <= RECENT_PACKETS {
                Some(duplicate_packets(&self.packets))
            } else {
                let mut recent: Vec<Packet> = Vec::new();
                let start = length - RECENT_PACKETS;
                for i in start..length
                    invariant
                        start == length - RECENT_PACKETS,
                        length == self.packets@.len(),
                        recent@ == self.packets@.subrange(start as int, i as int),
                {
                    recent.push(self.packets[i].duplicate());
                    assert(recent@ =~= self.packets@.subrange(start as int, i + 1));
                }
                Some(recent)
            }
        }
    }

    /// How many rows the table shows.
    pub fn displayed_count(&self) -> (r: usize)
        ensures
            r == displayed_count(self@),
    {
        if self.search_is_active {
            self.packets_to_draw.len()
        } else if self.packets.len() <= RECENT_PACKETS {
            self.packets.len()
        } else {
            RECENT_PACKETS
        }
    }

    /// The progress gauge's value, truncated to 16 bits.
    pub fn get_gauge_ratio(&self) -> (r: u16)
        ensures
            r as int == self.gauge_ratio % 65536,
    {
        (self.gauge_ratio % 65536) as u16
    }

    /// Moves the table selection down one row, wrapping to the first row.
    pub fn select_next_packet(&mut self)
        ensures
            final(self)@ == (ModelView {
                selected: next_selection(old(self)@.selected, displayed_count(old(self)@)),
                ..old(self)@
            }),
    {
        let n = self.displayed_count();
        let next = if n == 0 {
            None
        } else {
            match self.packet_table_state.selected() {
                Some(i) => if i >= n - 1 { Some(0) } else { Some(i + 1) },
                None => Some(0),
            }
        };
        self.packet_table_state.select(next);
    }

    /// Moves the table selection up one row, wrapping to the last row.
    pub fn select_previous_packet(&mut self)
        ensures
            final(self)@ == (ModelView {
                selected: previous_selection(old(self)@.selected, displayed_count(old(self)@)),
                ..old(self)@
            }),
    {
        let n = self.displayed_count();
        let previous = if n == 0 {
            None
        } else {
            match self.packet_table_state.selected() {
                Some(i) => if i == 0 || i > n { Some(n - 1) } else { Some(i - 1) },
                None => Some(0),
            }
        };
        self.packet_table_state.select(previous);
    }
}

/// Outside a search, the table shows the last `min(n, RECENT_PACKETS)` of the
/// `n` captured packets, in capture order (nothing before the first packet);
/// while a search is active it shows the search results.
pub proof fn law_table_shows_recent_packets(m: ModelView)
    ensures
        m.search_is_active ==> displayed_packets(m) == Some(m.packets_to_draw),
        !m.search_is_active && m.packets.len() == 0 ==> displayed_packets(m) is None,
        !m.search_is_active && m.packets.len() > 0 ==> ({
            let n = m.packets.len();
            let shown: nat = if n < RECENT_PACKETS { n } else { RECENT_PACKETS as nat };
            &&& displayed_packets(m) == Some(m.packets.subrange(n - shown, n as int))
            &&& displayed_count(m) == shown
        }),
{
    if !m.search_is_active && 0 < m.packets.len() <= RECENT_PACKETS {
        assert(m.packets.subrange(0, m.packets.len() as int) =~= m.packets);
    }
}

} // verus!

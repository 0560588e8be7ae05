//! Key handling and incoming traffic: how each event changes the model.

use crate::model::{
    displayed_count, displayed_packets, next_selection, previous_selection, KeyMode, Model,
    ModelView, Packet, RECENT_PACKETS,
};
use crate::text::pop_char;
use crate::text::push_char;
use vstd::prelude::*;

verus! {

/// An event for the model: terminal input, a clock tick, or a captured packet.
#[derive(Clone, Debug)]
pub enum Event<I, P> {
    Input(I),
    Tick,
    Traffic(P),
}

/// The keys that the model tells apart.
#[derive(Clone, Copy, Debug, PartialEq, Eq, Structural)]
pub enum KeyCode {
    Char(char),
    Esc,
    Backspace,
    Enter,
    Other,
}

/// Terminal input: a key press, a mouse action, or a resize to (columns, rows).
#[derive(Clone, Copy, Debug, PartialEq, Eq, Structural)]
pub enum InputEvent {
    Key(KeyCode),
    Mouse,
    Resize(u16, u16),
}

/// The event of pressing `code`.
pub open spec fn key_press(code: KeyCode) -> Event<InputEvent, Packet> {
    Event::Input(InputEvent::Key(code))
}

/// A key pressed while editing the search input.
pub open spec fn insert_mode_key(m: ModelView, code: KeyCode) -> ModelView {
    match code {
        KeyCode::Char(c) => ModelView { input: m.input.push(c), ..m },
        KeyCode::Esc => ModelView { key_mode: KeyMode::Normal, ..m },
        KeyCode::Backspace => if m.input.len() > 0 {
            ModelView { input: m.input.drop_last(), ..m }
        } else {
            m
        },
        KeyCode::Enter => if m.input.len() > 0 {
            ModelView {
                search_is_active: true,
                key_mode: KeyMode::Normal,
                selected: None,
                ..m
            }
        } else {
            m
        },
        KeyCode::Other => m,
    }
}

/// A key pressed while driving the table: `q` quits, `i` edits the search,
/// `j`/`k` move the selection, `c` ends the search.
pub open spec fn normal_mode_key(m: ModelView, code: KeyCode) -> ModelView {
    match code {
        KeyCode::Char(c) => if c == 'q' {
            ModelView { should_quit: true, ..m }
        } else if c == 'i' {
            ModelView { key_mode: KeyMode::Insert, selected: None, ..m }
        } else if c == 'j' {
            ModelView { selected: next_selection(m.selected, displayed_count(m)), ..m }
        } else if c == 'k' {
            ModelView { selected: previous_selection(m.selected, displayed_count(m)), ..m }
        } else if c == 'c' {
            ModelView {
                input: Seq::empty(),
                search_is_active: false,
                selected: None,
                ..m
            }
        } else {
            m
        },
        _ => m,
    }
}

/// A key press: first handled as input when in insert mode, then, if the
/// model is (now) in normal mode, as a command.
pub open spec fn key_step(m: ModelView, code: KeyCode) -> ModelView {
    let edited = if m.key_mode == KeyMode::Insert {
        insert_mode_key(m, code)
    } else {
        m
    };
    if edited.key_mode == KeyMode::Normal {
        normal_mode_key(edited, code)
    } else {
        edited
    }
}

/// The model after `event`.
pub open spec fn update_spec(m: ModelView, event: Event<InputEvent, Packet>) -> ModelView {
    match event {
        Event::Input(InputEvent::Key(code)) => key_step(m, code),
        Event::Input(_) => m,
        Event::Tick => m,
        Event::Traffic(p) => ModelView { packets: m.packets.push(p), ..m },
    }
}

/// Applies one event to the model.
pub fn update(model: &mut Model, event: Event<InputEvent, Packet>)
    ensures
        final(model)@ == update_spec(old(model)@, event),
{
    match event {
        Event::Input(input) => match input {
            InputEvent::Key(code) => {
                if model.key_mode == KeyMode::Insert {
                    match code {
                        KeyCode::Char(c) => {
                            push_char(&mut model.input, c);
                        },
                        KeyCode::Esc => {
                            model.key_mode = KeyMode::Normal;
                        },
                        KeyCode::Backspace => {
                            pop_char(&mut model.input);
                        },
                        KeyCode::Enter => {
                            if !model.input.as_str().is_empty() {
                                model.search_is_active = true;
                                model.key_mode = KeyMode::Normal;
                                model.packet_table_state.select(None);
                            }
                        },
                        KeyCode::Other => {},
                    }
                }
                if model.key_mode == KeyMode::Normal {
                    match code {
                        KeyCode::Char('q') => {
                            model.should_quit = true;
                        },
                        KeyCode::Char('i') => {
                            model.key_mode = KeyMode::Insert;
                            model.packet_table_state.select(None);
                        },
                        KeyCode::Char('j') => {
                            model.select_next_packet();
                        },
                        KeyCode::Char('k') => {
                            model.select_previous_packet();
                        },
                        KeyCode::Char('c') => {
                            model.input = String::new();
                            model.search_is_active = false;
                            model.packet_table_state.select(None);
                        },
                        _ => {},
                    }
                }
            },
            InputEvent::Mouse => {},
            InputEvent::Resize(_, _) => {},
        },
        Event::Tick => {},
        Event::Traffic(packet) => {
            model.packets.push(packet);
        },
    }
}

/// Typing a character into the search input and then pressing Backspace
/// leaves the model as it was.
pub proof fn law_backspace_undoes_typing(m: ModelView, c: char)
    requires
        m.key_mode == KeyMode::Insert,
    ensures
        update_spec(update_spec(m, key_press(KeyCode::Char(c))), key_press(KeyCode::Backspace)) == m,
{
    let typed = update_spec(m, key_press(KeyCode::Char(c)));
    assert(typed.input.drop_last() =~= m.input);
}

/// `q` quits only from normal mode; in insert mode it is typed into the input.
pub proof fn law_quit_only_in_normal_mode(m: ModelView)
    ensures
        update_spec(m, key_press(KeyCode::Char('q'))).should_quit == (m.should_quit || m.key_mode
            == KeyMode::Normal),
        m.key_mode == KeyMode::Insert ==> update_spec(m, key_press(KeyCode::Char('q'))).input
            == m.input.push('q'),
{
}

/// In normal mode, `j` and `k` always leave a row of the table selected when
/// the table has rows, and nothing selected when it has none.
pub proof fn law_selection_stays_on_a_row(m: ModelView, c: char)
    requires
        m.key_mode == KeyMode::Normal,
        c == 'j' || c == 'k',
    ensures
        displayed_count(m) > 0 ==> (update_spec(m, key_press(KeyCode::Char(c))).selected matches Some(
            i,
        ) && i < displayed_count(m)),
        displayed_count(m) == 0 ==> update_spec(m, key_press(KeyCode::Char(c))).selected is None,
{
}

/// Moving down (`j`) and then up (`k`) from a selected row returns to it.
pub proof fn law_down_then_up_returns(m: ModelView, i: usize)
    requires
        m.key_mode == KeyMode::Normal,
        m.selected == Some(i),
        i < displayed_count(m) <= usize::MAX,
    ensures
        update_spec(update_spec(m, key_press(KeyCode::Char('j'))), key_press(KeyCode::Char('k'))) == m,
{
    let down = update_spec(m, key_press(KeyCode::Char('j')));
    assert(displayed_packets(down) == displayed_packets(m));
    assert(displayed_count(down) == displayed_count(m));
}

/// Leaving insert mode with Esc and coming back with `i` restores the model,
/// except that no row is selected any more.
pub proof fn law_leave_and_reenter_insert_mode(m: ModelView)
    requires
        m.key_mode == KeyMode::Insert,
    ensures
        update_spec(update_spec(m, key_press(KeyCode::Esc)), key_press(KeyCode::Char('i')))
            == (ModelView { selected: None, ..m }),
{
}

/// Only traffic changes the captured packets, and only by appending the new
/// packet; no event changes the search results.
pub proof fn law_only_traffic_adds_packets(m: ModelView, event: Event<InputEvent, Packet>)
    ensures
        update_spec(m, event).packets == (match event {
            Event::Traffic(p) => m.packets.push(p),
            _ => m.packets,
        }),
        update_spec(m, event).packets_to_draw == m.packets_to_draw,
{
}

/// Outside a search, a newly captured packet is the last row shown, and the
/// table shows at most `RECENT_PACKETS` rows, the most recent ones.
pub proof fn law_new_packet_is_shown_last(m: ModelView, p: Packet)
    requires
        !m.search_is_active,
    ensures
        ({
            let after = update_spec(m, Event::Traffic(p));
            &&& displayed_packets(after) matches Some(rows)
            &&& rows.len() > 0
            &&& rows.last() == p
            &&& rows.len() <= RECENT_PACKETS
            &&& rows == after.packets.subrange(after.packets.len() - rows.len(), after.packets.len() as int)
        }),
{
    let after = update_spec(m, Event::Traffic(p));
    if after.packets.len() <= RECENT_PACKETS {
        assert(after.packets.subrange(0, after.packets.len() as int) =~= after.packets);
    }
}

/// In normal mode, `c` ends the search: the input is cleared and the table
/// shows the most recent captured packets again.
pub proof fn law_clear_ends_search(m: ModelView)
    requires
        m.key_mode == KeyMode::Normal,
    ensures
        ({
            let after = update_spec(m, key_press(KeyCode::Char('c')));
            &&& after.input.len() == 0
            &&& !after.search_is_active
            &&& after.selected is None
            &&& after.key_mode == KeyMode::Normal
            &&& after.packets == m.packets
            &&& after.should_quit == m.should_quit
            &&& displayed_packets(after) == displayed_packets(ModelView { search_is_active: false, ..m })
        }),
{
}

/// The key mode changes only in three ways: `i` enters insert mode from
/// normal mode, and Esc, or Enter on a non-empty input, returns to normal
/// mode; every other key, and every other event, keeps the mode.
pub proof fn law_key_mode_changes(m: ModelView, event: Event<InputEvent, Packet>)
    ensures
        update_spec(m, event).key_mode == (match event {
            Event::Input(InputEvent::Key(code)) => if m.key_mode == KeyMode::Normal {
                if code == KeyCode::Char('i') {
                    KeyMode::Insert
                } else {
                    KeyMode::Normal
                }
            } else if code == KeyCode::Esc || (code == KeyCode::Enter && m.input.len() > 0) {
                KeyMode::Normal
            } else {
                KeyMode::Insert
            },
            _ => m.key_mode,
        }),
{
}

/// In normal mode `j` selects the next row and `k` the previous one among the
/// rows shown, wrapping around at the ends; with nothing selected either key
/// selects the first row. Nothing but the selection changes.
pub proof fn law_j_and_k_move_by_one_row(m: ModelView, i: usize)
    requires
        m.key_mode == KeyMode::Normal,
    ensures
        ({
            let n = displayed_count(m);
            let down = update_spec(m, key_press(KeyCode::Char('j')));
            let up = update_spec(m, key_press(KeyCode::Char('k')));
            &&& down == (ModelView { selected: down.selected, ..m })
            &&& up == (ModelView { selected: up.selected, ..m })
            &&& (m.selected == Some(i) && i + 1 < n ==> down.selected == Some((i + 1) as usize))
            &&& (m.selected == Some(i) && i + 1 == n ==> down.selected == Some(0usize))
            &&& (m.selected == Some(i) && 0 < i < n ==> up.selected == Some((i - 1) as usize))
            &&& (m.selected == Some(0usize) && n > 0 ==> up.selected == Some((n - 1) as usize))
            &&& (m.selected is None && n > 0 ==> down.selected == Some(0usize) && up.selected == Some(0usize))
        }),
{
}

} // verus!

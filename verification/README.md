# packet_sniffer

A terminal packet viewer: it captures Ethernet frames (live or from a pcap
file), shows the most recent packets in a table with the selected packet's
details and payload, and searches stored packets.

- `src/` is the verified library: address rendering (`text`), capture times
  (`datetime`, `date_format`), frame decoding into packets (`capture`), the
  model and its table window (`model`), key and traffic handling (`update`),
  what a frame shows (`draw`) and the store worker's decisions (`dbthread`).
  Calls into `chrono`, `etherparse` and `stfu8` go through small trusted
  wrappers whose contracts are documented where they stand.
- `tests/` runs the library on concrete inputs.
- `app/` is the program around it: pcap capture, the crossterm/tui terminal,
  the threads, and the pallet search store.

# tcads_core

The core data types of the TwinCAT ADS protocol, with their wire formats,
written in Verus: every parser, serializer and rule of the library carries a
contract, and Verus proves the code against it.

- `src/` — the verified library: AMS/ADS headers and commands, return codes,
  index groups and offsets, notification attributes and handles, FILETIME
  timestamps, PLC strings, sum commands, and the symbol and data type tables
  (symbol, type, field, method, attribute, enum and refactoring entries).
  Laws that relate several functions (a round trip of serializing and
  parsing, the progress of the table iterators, wire sizes) are public proof
  functions beside the code they speak of.
- `tests/` — tests run against the compiled library.
- `app/` — the copies of the library's types that carry `serde` and
  `thiserror` derives, with conversions both ways.

Windows-1252 text goes through `encoding_rs`; GUIDs are drawn with `rand`.
Those calls, and the few `std` time functions used, stand behind trusted
items whose contracts are documented where they are declared.

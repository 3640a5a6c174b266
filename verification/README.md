# rsfdisk

Partition table management around `libfdisk`, with its logic verified by Verus.

- `src/` is the verified library: the `MBR` and `GPT` partition type identifiers
  (`partition::code`, `partition::guid`) with their text forms and parsers, the partition
  and partition type builders, partition table metadata (kinds, fields, header entries, input
  types, shortcuts, ranges), prompt kinds and menu items, version strings, the errors, and the
  decisions taken on what `libfdisk` reports: status codes, the cursors of a walk over a
  partition list from both ends, and error messages.
- `app/` holds the handles on `libfdisk` objects (partitions, partition lists and their
  iterators, partition tables, prompts, scripts) and the calls into `libfdisk`; it hands the
  results of those calls to the library.
- `tests/` exercises the library.

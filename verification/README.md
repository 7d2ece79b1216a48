# tivra

The verified core of the Tivra desktop client, written in Verus.

* `src/` — the library. Every function carries a contract that Verus proves,
  except four small trusted wrappers around outside calls (`str::to_lowercase`,
  `String::push`, and the directive and language-identifier parsers of
  `tracing-subscriber` and `unic-langid`), whose contracts are believed:
  colour text and channel conversions (`color`), fonts (`fonts`), units and
  languages (`units`), configuration size limits (`config_file`), the
  directory layout and path joining (`paths`), the logging set-up plan
  (`telemetry`), the choice of translation languages (`localize`, `order`),
  the window message reducer (`window`), event translation (`input`) and the
  title bar / sidebar / resize-handle layout (`layout`).
* `tests/` — tests of the library on concrete values.
* `app/` — the iced program around the library: file and directory I/O,
  logging subscribers, translations, the widgets, and the serialised forms of
  the configuration.

# Walle-Q

A QQ implementation of the OneBot 12 protocol, built around a library whose
decisions are proved with Verus.

- `src/` is the verified library: message identifiers and their decoding,
  the mapping of QQ client events and message elements to OneBot events and
  segments, the bookkeeping of the groups a bot owns or administers, the
  planning of outgoing messages, fragmented uploads, login steps, action
  parameters, configuration and error answers.  Every public function states
  what it returns in its `ensures`.
- `tests/` exercises the library on concrete values.
- `app/` is the program around it: the command line, the settings file, the
  message stores on disk, the QQ client and the OneBot server.  It performs
  the lookups, uploads and network calls that the library asks for.

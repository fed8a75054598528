# serial_wizard

A serial-port terminal: the user picks a port, speed and line ending,
connects, sends lines, watches what the port sends back, and can record it
to dated files that are renewed every ten minutes.

- `src/` is the verified library: the settings and their baud-rate parser
  (`settings`), the session kept between commands and the decisions of each
  command (`session`), the per-read decisions of the background reader
  (`reader`), recording file names (`clock`), the text shown and sent
  (`text`), the send and line helpers (`serial_wrapper`, `serial_wraper`) and
  the properties that span them (`laws`).
- `app/` is the desktop shell: window commands, dialogs, port and file I/O,
  threads. It carries out what the library decides.
- `tests/` runs the library on concrete values.
